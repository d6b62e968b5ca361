//! Utilities for ETF distributions generation.

use super::partition::{InitTable, IntervalArray, NodeArray, Partition};
use super::{Envelope, UnivariateFn};
use crate::num::{Float, Number};
use rand_core::RngCore;
use vstd::prelude::*;

verus! {

/// An error that can occur during a tabulation computation.
#[derive(Copy, Clone, PartialEq, Eq, Debug)]
pub enum TabulationError {
    /// The areas of the rectangles did not come within the tolerance of one
    /// another in the allowed number of iterations, or stopped being numbers.
    ConvergenceFailure,
}

impl TabulationError {
    /// Text of the error.
    pub fn message(&self) -> (text: String)
        ensures
            text@ == "the solution did not convergence after the maximum number of iterations"@,
    {
        "the solution did not convergence after the maximum number of iterations".to_owned()
    }
}

/// The quadrature that the pre-partition is read from: the function `f`
/// over the `m` sub-intervals of width `dx` from `x0` on, and the area `ds`
/// that each cell of the partition is to have, in units of `dx`.
pub struct Quadrature<T: Float, F> {
    /// The function.
    pub f: F,
    /// Where the interval begins.
    pub x0: Number<T>,
    /// Width of a sub-interval.
    pub dx: Number<T>,
    /// Number of sub-intervals.
    pub m: usize,
    /// The area of a cell of the partition over `dx`.
    pub ds: Number<T>,
}

impl<T: Float, F: UnivariateFn<T>> Quadrature<T, F> {
    /// The value of the function at the midpoint of sub-interval `i`:
    /// `f(x0 + (i + 1/2) dx)`.
    pub open spec fn value(self, i: nat) -> Number<T> {
        let one_half = Number::<T>::spec_one().spec_div(
            Number::spec_one().spec_add(Number::spec_one()),
        );
        self.f.spec_eval(
            self.x0
                .spec_add(Number::spec_cast_usize(i as usize).spec_add(one_half).spec_mul(self.dx)),
        )
    }

    /// The sum of the values at the first `k` midpoints, each added to the
    /// sum of those before it.
    pub open spec fn sum(self, k: nat) -> Number<T>
        decreases k,
    {
        if k == 0 {
            Number::spec_zero()
        } else {
            self.value((k - 1) as nat).spec_add(self.sum((k - 1) as nat))
        }
    }

    /// The quadrature of `f` over `m` sub-intervals of `[x0, x1]`, for a
    /// partition into `n` cells.
    pub open spec fn over(f: F, x0: Number<T>, x1: Number<T>, m: usize, n: usize) -> Self {
        let dx = x1.spec_sub(x0).spec_div(Number::spec_cast_usize(m));
        let bare = Quadrature { f, x0, dx, m, ds: Number::spec_zero() };
        Quadrature { f, x0, dx, m, ds: bare.sum(m as nat).spec_div(Number::spec_cast_usize(n)) }
    }

    /// Walks along the rectangles of the quadrature for as long as their
    /// cumulated area `a_rect` is below `a` and a rectangle is left: from
    /// rectangle `rect`, whose upper end is `x_rect`, to the rectangle at
    /// which the walk stops, with the area and the upper end there.
    pub open spec fn advance(
        self,
        a: Number<T>,
        rect: nat,
        a_rect: Number<T>,
        x_rect: Number<T>,
    ) -> (
        nat,
        Number<T>,
        Number<T>,
    )
        decreases self.m - rect,
    {
        if rect + 1 < self.m && a_rect.spec_lt(a) {
            self.advance(
                a,
                rect + 1,
                a_rect.spec_add(self.value(rect + 1)),
                x_rect.spec_add(self.dx),
            )
        } else {
            (rect, a_rect, x_rect)
        }
    }

    /// Where the walk stands once node `i` is placed: at the first
    /// rectangle before any node, and for each node advanced until the
    /// cumulated area reaches `i` times the area of a cell.
    pub open spec fn walk(self, i: nat) -> (nat, Number<T>, Number<T>)
        decreases i,
    {
        if i == 0 {
            (0, self.value(0), self.x0.spec_add(self.dx))
        } else {
            let before = self.walk((i - 1) as nat);
            self.advance(
                self.ds.spec_mul(Number::spec_cast_usize(i as usize)),
                before.0,
                before.1,
                before.2,
            )
        }
    }

    /// Node `i` of the partition: in the rectangle at which the walk stops,
    /// the place up to which the cumulated area is `i` times the area of a
    /// cell, by interpolation.
    pub open spec fn node(self, i: nat) -> Number<T> {
        let at = self.walk(i);
        let a = self.ds.spec_mul(Number::spec_cast_usize(i as usize));
        at.2.spec_sub(self.dx.spec_mul(at.1.spec_sub(a).spec_div(self.value(at.0))))
    }
}

/// The pre-partition of `[x0, x1]` into `n` cells for the function `f`, read
/// from a quadrature over `m` sub-intervals, or over `n` if `m` is zero: the
/// two ends, and between them the nodes of the quadrature.
pub open spec fn spec_midpoint_prepartition<T: Float, F: UnivariateFn<T>>(
    f: F,
    x0: Number<T>,
    x1: Number<T>,
    m: usize,
    n: usize,
) -> Seq<Number<T>> {
    let q = Quadrature::over(
        f,
        x0,
        x1,
        if m != 0 {
            m
        } else {
            n
        },
        n,
    );
    Seq::new(
        (n + 1) as nat,
        |i: int|
            if i == 0 {
                x0
            } else if i == n {
                x1
            } else {
                q.node(i as nat)
            },
    )
}

/// Generates a partition by dividing approximately evenly the area under a
/// function.
///
/// The result can be used as an initial guess of the ETF partition for the
/// exact partitioning algorithm.
///
/// Function `f` is first approximated by a rectangular midpoint quadrature over
/// a regular partition of [`x0`, `x1`] into `m` sub-intervals. Then, a
/// non-regular partition of [`x0`, `x1`] is computed such that the area under
/// the quadrature approximation is equal over each sub-interval.
///
/// If argument `m` is zero, then the number of midpoint quadrature
/// sub-intervals is set equal to the number of sub-intervals of the target
/// partition.
///
/// The walk along the quadrature stops at its last rectangle: for a function
/// that is nowhere negative and has a positive area it would not go further
/// anyway.
pub fn midpoint_prepartition<P: Partition, T: Float, F: UnivariateFn<T>>(
    f: &F,
    x0: Number<T>,
    x1: Number<T>,
    m: usize,
) -> (x: NodeArray<P, T>)
    ensures
        x@.len() == P::spec_size() + 1,
        x@[0] == x0,
        x@[P::spec_size() as int] == x1,
        forall|i: int|
            0 < i < P::spec_size() ==> (#[trigger] x@[i]) == Quadrature::over(
                *f,
                x0,
                x1,
                if m != 0 {
                    m
                } else {
                    P::spec_size() as usize
                },
                P::spec_size() as usize,
            ).node(i as nat),
        x@ == spec_midpoint_prepartition(*f, x0, x1, m, P::spec_size() as usize),
{
    proof {
        P::lemma_size();
    }
    // constants.
    let one_half = Number::one().div(Number::one().add(Number::one()));
    let ghost m0 = m;
    let m = if m != 0 {
        m
    } else {
        P::size()
    };
    let n = P::size();
    let ghost q = Quadrature::over(*f, x0, x1, m, n);

    // Mid-point evaluation.
    let dx = x1.sub(x0).div(Number::cast_usize(m));
    let mut y: Vec<Number<T>> = Vec::new();
    for i in 0..m
        invariant
            y.len() == i,
            q.f == *f,
            q.x0 == x0,
            q.dx == dx,
            one_half == Number::<T>::spec_one().spec_div(
                Number::spec_one().spec_add(Number::spec_one()),
            ),
            forall|j: int| 0 <= j < i ==> (#[trigger] y@[j]) == q.value(j as nat),
    {
        y.push(f.eval(x0.add(Number::cast_usize(i).add(one_half).mul(dx))));
    }

    // Pre-allocate the result partition.
    let mut x: NodeArray<P, T> = NodeArray::default();

    // Choose abscissae that evenly split the area under the curve.
    let mut sum = Number::zero();
    for i in 0..m
        invariant
            y.len() == m,
            forall|j: int| 0 <= j < m ==> (#[trigger] y@[j]) == q.value(j as nat),
            sum == q.sum(i as nat),
    {
        sum = y[i].add(sum);
    }
    let ds = sum.div(Number::cast_usize(n));  // expected average sub-partition area
    proof {
        let bare = Quadrature { f: *f, x0, dx, m, ds: Number::<T>::spec_zero() };
        assert forall|k: nat| #[trigger] bare.value(k) == q.value(k) by {
        }
        lemma_sum_leaves_the_area_out(bare, q, m as nat);
        assert(q.ds == ds);
    }
    let mut rect: usize = 0;
    let mut x_rect = x0.add(dx);
    let mut a_rect = y[0];  // cumulated rectangles area, normalized by 1/|dx|.
    for i in 1..n
        invariant
            n == P::spec_size(),
            x@.len() == n + 1,
            y.len() == m,
            rect < m,
            q.m == m,
            q.dx == dx,
            q.ds == ds,
            forall|j: int| 0 <= j < m ==> (#[trigger] y@[j]) == q.value(j as nat),
            (rect as nat, a_rect, x_rect) == q.walk((i - 1) as nat),
            forall|j: int| 0 < j < i ==> (#[trigger] x@[j]) == q.node(j as nat),
    {
        // Expected cumulated area from x0 to current partition.
        let a = ds.mul(Number::cast_usize(i));

        // Integrate `f` from `x0` until `a` is smaller than `a_rect`.
        while rect + 1 < m && a_rect.lt(a)
            invariant
                y.len() == m,
                rect < m,
                q.m == m,
                q.dx == dx,
                forall|j: int| 0 <= j < m ==> (#[trigger] y@[j]) == q.value(j as nat),
                q.advance(a, rect as nat, a_rect, x_rect) == q.walk(i as nat),
            decreases m - rect,
        {
            rect += 1;
            a_rect = a_rect.add(y[rect]);
            x_rect = x_rect.add(dx);
        }

        // Interpolate `x`.
        x.set(i, x_rect.sub(dx.mul(a_rect.sub(a).div(y[rect]))));
    }
    x.set(0, x0);
    x.set(n, x1);
    proof {
        assert(x@ =~= spec_midpoint_prepartition(*f, x0, x1, m0, n));
    }

    x
}

/// The sum of the values of a quadrature does not depend on the area that is
/// asked of a cell.
proof fn lemma_sum_leaves_the_area_out<T: Float, F: UnivariateFn<T>>(
    p: Quadrature<T, F>,
    q: Quadrature<T, F>,
    k: nat,
)
    requires
        forall|i: nat| #[trigger] p.value(i) == q.value(i),
    ensures
        p.sum(k) == q.sum(k),
    decreases k,
{
    if k > 0 {
        lemma_sum_leaves_the_area_out(p, q, (k - 1) as nat);
    }
}

/// Whether the numbers never decrease along the sequence. No number of such a
/// sequence is a NaN.
pub open spec fn is_increasing<T: Float>(x: Seq<Number<T>>) -> bool {
    forall|i: int| 0 <= i < x.len() - 1 ==> (#[trigger] x[i]).spec_le(x[i + 1])
}

/// Whether the numbers never increase along the sequence. No number of such a
/// sequence is a NaN.
pub open spec fn is_decreasing<T: Float>(x: Seq<Number<T>>) -> bool {
    forall|i: int| 0 <= i < x.len() - 1 ==> x[i + 1].spec_le(#[trigger] x[i])
}

/// In a sequence that never decreases, every number is at most each of those
/// that come after it: all lie between the first and the last.
pub proof fn lemma_increasing_is_ordered<T: Float>(x: Seq<Number<T>>, i: int, j: int)
    requires
        is_increasing(x),
        0 <= i <= j < x.len(),
        x.len() >= 2,
    ensures
        x[i].spec_le(x[j]),
    decreases j - i,
{
    if i == j {
        if i < x.len() - 1 {
            assert(x[i].spec_le(x[i + 1]));
        } else {
            assert(x[i - 1].spec_le(x[i]));
        }
    } else {
        lemma_increasing_is_ordered(x, i, j - 1);
        assert(x[j - 1].spec_le(x[j]));
    }
}

/// In a sequence that never increases, every number is at least each of those
/// that come after it: all lie between the last and the first.
pub proof fn lemma_decreasing_is_ordered<T: Float>(x: Seq<Number<T>>, i: int, j: int)
    requires
        is_decreasing(x),
        0 <= i <= j < x.len(),
        x.len() >= 2,
    ensures
        x[j].spec_le(x[i]),
    decreases j - i,
{
    if i == j {
        if i < x.len() - 1 {
            assert(x[i + 1].spec_le(x[i]));
        } else {
            assert(x[i].spec_le(x[i - 1]));
        }
    } else {
        lemma_decreasing_is_ordered(x, i, j - 1);
        assert(x[j].spec_le(x[j - 1]));
    }
}

/// Whether the numbers grow along the sequence: each is less than the next.
pub open spec fn is_strictly_increasing<T: Float>(x: Seq<Number<T>>) -> bool {
    forall|i: int| 0 <= i < x.len() - 1 ==> (#[trigger] x[i]).spec_lt(x[i + 1])
}

/// Whether the numbers fall along the sequence: each is greater than the
/// next.
pub open spec fn is_strictly_decreasing<T: Float>(x: Seq<Number<T>>) -> bool {
    forall|i: int| 0 <= i < x.len() - 1 ==> x[i + 1].spec_lt(#[trigger] x[i])
}

/// Whether the abscissa `e` lies strictly between the two ends `a` and `b` of
/// a partition, whichever of them is the lower.
pub open spec fn lies_within<T: Float>(e: Number<T>, a: Number<T>, b: Number<T>) -> bool {
    (e.spec_gt(a) && e.spec_lt(b)) || (e.spec_gt(b) && e.spec_lt(a))
}

/// Those of the first `k` of the abscissae `x_extrema` that lie strictly
/// between the two end nodes `lo` and `hi` of the partition, whichever of
/// them is the lower, in their order, each with the value of the function
/// there.
pub open spec fn inner_extrema<T: Float, F: UnivariateFn<T>>(
    f: F,
    x_extrema: Seq<Number<T>>,
    lo: Number<T>,
    hi: Number<T>,
    k: nat,
) -> Seq<(Number<T>, Number<T>)>
    decreases k,
{
    if k == 0 {
        Seq::empty()
    } else {
        let rest = inner_extrema(f, x_extrema, lo, hi, (k - 1) as nat);
        let e = x_extrema[k - 1];
        if lies_within(e, lo, hi) {
            rest.push((e, f.spec_eval(e)))
        } else {
            rest
        }
    }
}

/// Whether the abscissa `e` lies in the cell between the nodes `lo` and
/// `hi`: it is above one of them and not above the other.
pub open spec fn lies_between<T: Float>(e: Number<T>, lo: Number<T>, hi: Number<T>) -> bool {
    e.spec_gt(lo) != e.spec_gt(hi)
}

/// Takes in the extrema of one cell: from the extremum at `cursor` on, as
/// long as they lie in the cell between `lo` and `hi`, the value `best` is
/// replaced by each value that is greater (if `upward`) or less. The result
/// is the value after the last of them, the place of the first extremum
/// that does not lie in the cell, and whether the value was replaced, before
/// or now.
pub open spec fn scan<T: Float>(
    extrema: Seq<(Number<T>, Number<T>)>,
    lo: Number<T>,
    hi: Number<T>,
    upward: bool,
    best: Number<T>,
    cursor: nat,
    replaced: bool,
) -> (Number<T>, nat, bool)
    decreases extrema.len() - cursor,
{
    if cursor < extrema.len() && lies_between(extrema[cursor as int].0, lo, hi) {
        let y = extrema[cursor as int].1;
        let better = if upward {
            y.spec_gt(best)
        } else {
            y.spec_lt(best)
        };
        scan(
            extrema,
            lo,
            hi,
            upward,
            if better {
                y
            } else {
                best
            },
            cursor + 1,
            replaced || better,
        )
    } else {
        (best, cursor, replaced)
    }
}

/// The supremum (if `upward`) or the infimum of the function over cell `i`
/// of the partition `x`, as the tabulation sees it: the greatest or least of
/// the values at the two nodes and at the extrema that lie in the cell. The
/// extrema are taken in their order, from the first that the cells before
/// left; with the value come the place of the first extremum that is left
/// to the cells after, and whether the value is that of an extremum and not
/// of a node.
pub open spec fn cell_extremum<T: Float, F: UnivariateFn<T>>(
    f: F,
    x: Seq<Number<T>>,
    extrema: Seq<(Number<T>, Number<T>)>,
    upward: bool,
    i: nat,
) -> (Number<T>, nat, bool)
    decreases i,
{
    let cursor = if i == 0 {
        0nat
    } else {
        cell_extremum(f, x, extrema, upward, (i - 1) as nat).1
    };
    let y0 = f.spec_eval(x[i as int]);
    let y1 = f.spec_eval(x[i as int + 1]);
    let start = if y0.spec_gt(y1) == upward {
        y0
    } else {
        y1
    };
    scan(extrema, x[i as int], x[i as int + 1], upward, start, cursor, false)
}

/// As long as no cell has met the first extremum, none is taken in: the
/// place in the extrema is still the first after each of the cells up to
/// cell `i`.
pub proof fn lemma_extrema_wait_for_their_cell<T: Float, F: UnivariateFn<T>>(
    f: F,
    x: Seq<Number<T>>,
    extrema: Seq<(Number<T>, Number<T>)>,
    upward: bool,
    i: nat,
)
    requires
        extrema.len() >= 1,
        forall|j: int| 0 <= j <= i ==> !lies_between(extrema[0].0, #[trigger] x[j], x[j + 1]),
    ensures
        cell_extremum(f, x, extrema, upward, i).1 == 0,
    decreases i,
{
    if i > 0 {
        lemma_extrema_wait_for_their_cell(f, x, extrema, upward, (i - 1) as nat);
    }
    assert(!lies_between(extrema[0].0, x[i as int], x[i as int + 1]));
}

/// An extremum strictly between the end nodes is counted in the cell in
/// which it lies, whether the nodes grow or fall. With `e` the one extremum
/// given, in cell `i` and in no cell before it, the supremum (if `upward`)
/// or the infimum of cell `i` is the greatest, or the least, of the values
/// at its two nodes and at `e`.
pub proof fn lemma_a_lone_extremum_is_taken_in<T: Float, F: UnivariateFn<T>>(
    f: F,
    x: Seq<Number<T>>,
    e: Number<T>,
    upward: bool,
    i: nat,
)
    requires
        i + 1 < x.len(),
        lies_within(e, x[0], x[x.len() - 1]),
        lies_between(e, x[i as int], x[i as int + 1]),
        forall|j: int| 0 <= j < i ==> !lies_between(e, #[trigger] x[j], x[j + 1]),
    ensures
        ({
            let extrema = inner_extrema(f, seq![e], x[0], x[x.len() - 1], 1);
            let y0 = f.spec_eval(x[i as int]);
            let y1 = f.spec_eval(x[i as int + 1]);
            let of_nodes = if y0.spec_gt(y1) == upward {
                y0
            } else {
                y1
            };
            let y = f.spec_eval(e);
            let better = if upward {
                y.spec_gt(of_nodes)
            } else {
                y.spec_lt(of_nodes)
            };
            &&& extrema == seq![(e, y)]
            &&& cell_extremum(f, x, extrema, upward, i).0 == (if better {
                y
            } else {
                of_nodes
            })
        }),
{
    let hi = x[x.len() - 1];
    let extrema = inner_extrema(f, seq![e], x[0], hi, 1);
    let y = f.spec_eval(e);
    assert(inner_extrema(f, seq![e], x[0], hi, 0) =~= Seq::empty());
    assert(extrema =~= seq![(e, y)]);
    if i > 0 {
        lemma_extrema_wait_for_their_cell(f, x, extrema, upward, (i - 1) as nat);
    }
    let y0 = f.spec_eval(x[i as int]);
    let y1 = f.spec_eval(x[i as int + 1]);
    let of_nodes = if y0.spec_gt(y1) == upward {
        y0
    } else {
        y1
    };
    let better = if upward {
        y.spec_gt(of_nodes)
    } else {
        y.spec_lt(of_nodes)
    };
    let taken = if better {
        y
    } else {
        of_nodes
    };
    assert(scan(extrema, x[i as int], x[i as int + 1], upward, taken, 1, better) == (
        taken,
        1nat,
        better,
    ));
    assert(scan(extrema, x[i as int], x[i as int + 1], upward, of_nodes, 0, false) == scan(
        extrema,
        x[i as int],
        x[i as int + 1],
        upward,
        taken,
        1,
        better,
    ));
}

/// The largest, the smallest and the sum of the areas of the first `k`
/// rectangles: each is the supremum over a cell times the width of the cell.
pub open spec fn rectangle_areas<T: Float, F: UnivariateFn<T>>(
    f: F,
    x: Seq<Number<T>>,
    extrema: Seq<(Number<T>, Number<T>)>,
    k: nat,
) -> (Number<T>, Number<T>, Number<T>)
    decreases k,
{
    if k == 0 {
        (Number::spec_zero(), Number::spec_infinity(), Number::spec_zero())
    } else {
        let before = rectangle_areas(f, x, extrema, (k - 1) as nat);
        let area = cell_extremum(f, x, extrema, true, (k - 1) as nat).0.spec_mul(
            x[k as int].spec_sub(x[k - 1]).spec_abs(),
        );
        (before.0.spec_max(area), before.1.spec_min(area), before.2.spec_add(area))
    }
}

/// Whether the partition `x` passes the convergence test: the largest area
/// exceeds the smallest by at most the tolerance times the mean area.
pub open spec fn has_converged<T: Float, F: UnivariateFn<T>>(
    f: F,
    x: Seq<Number<T>>,
    extrema: Seq<(Number<T>, Number<T>)>,
    tolerance: Number<T>,
) -> bool {
    let n = (x.len() - 1) as nat;
    let areas = rectangle_areas(f, x, extrema, n);
    areas.0.spec_sub(areas.1).spec_le(
        tolerance.spec_mul(areas.2.spec_div(Number::spec_cast_usize(n as usize))),
    )
}

/// The mean of the areas of the rectangles.
pub open spec fn mean_area<T: Float, F: UnivariateFn<T>>(
    f: F,
    x: Seq<Number<T>>,
    extrema: Seq<(Number<T>, Number<T>)>,
) -> Number<T> {
    let n = (x.len() - 1) as nat;
    rectangle_areas(f, x, extrema, n).2.spec_div(Number::spec_cast_usize(n as usize))
}

/// The derivative of the function at node `j`, as the tabulation takes it:
/// that of `df` at an inner node, zero at the two end nodes, which do not
/// move.
pub open spec fn node_slope<T: Float, DF: UnivariateFn<T>>(
    df: DF,
    x: Seq<Number<T>>,
    j: int,
) -> Number<T> {
    if j == 0 || j == x.len() - 1 {
        Number::spec_zero()
    } else {
        df.spec_eval(x[j])
    }
}

/// The derivatives of the supremum over cell `i` with respect to its lower
/// and its upper node: that of the function at the node where the supremum
/// is taken, zero at the other node, and zero at both if the supremum is
/// taken at an extremum.
pub open spec fn cell_slopes<T: Float, F: UnivariateFn<T>, DF: UnivariateFn<T>>(
    f: F,
    df: DF,
    x: Seq<Number<T>>,
    extrema: Seq<(Number<T>, Number<T>)>,
    i: int,
) -> (Number<T>, Number<T>) {
    if cell_extremum(f, x, extrema, true, i as nat).2 {
        (Number::spec_zero(), Number::spec_zero())
    } else if f.spec_eval(x[i]).spec_gt(f.spec_eval(x[i + 1])) {
        (node_slope(df, x, i), Number::spec_zero())
    } else {
        (Number::spec_zero(), node_slope(df, x, i + 1))
    }
}

/// The system of Newton's method for the partition `x`: row `i` asks that
/// the rectangles of the cells `i` and `i + 1` have equal areas. With `s` the
/// area of the first less that of the second, the right-hand side is `-s`,
/// and the three diagonals are the derivatives of `s` with respect to the
/// nodes `i`, `i + 1` and `i + 2`. The result is the lower diagonal, the
/// diagonal, the upper diagonal and the right-hand side.
pub open spec fn newton_system<T: Float, F: UnivariateFn<T>, DF: UnivariateFn<T>>(
    f: F,
    df: DF,
    x: Seq<Number<T>>,
    extrema: Seq<(Number<T>, Number<T>)>,
) -> (Seq<Number<T>>, Seq<Number<T>>, Seq<Number<T>>, Seq<Number<T>>) {
    let rows = (x.len() - 2) as nat;
    (
        Seq::new(
            rows,
            |i: int|
                cell_extremum(f, x, extrema, true, i as nat).0.spec_sub(
                    x[i + 1].spec_sub(x[i]).spec_mul(cell_slopes(f, df, x, extrema, i).0),
                ),
        ),
        Seq::new(
            rows,
            |i: int|
                x[i + 2].spec_sub(x[i + 1]).spec_mul(
                    cell_slopes(f, df, x, extrema, i + 1).0,
                ).spec_sub(
                    x[i + 1].spec_sub(x[i]).spec_mul(cell_slopes(f, df, x, extrema, i).1),
                ).spec_sub(
                    cell_extremum(f, x, extrema, true, i as nat).0.spec_add(
                        cell_extremum(f, x, extrema, true, (i + 1) as nat).0,
                    ),
                ),
        ),
        Seq::new(
            rows,
            |i: int|
                cell_extremum(f, x, extrema, true, (i + 1) as nat).0.spec_add(
                    x[i + 2].spec_sub(x[i + 1]).spec_mul(cell_slopes(f, df, x, extrema, i + 1).1),
                ),
        ),
        Seq::new(
            rows,
            |i: int|
                cell_extremum(f, x, extrema, true, i as nat).0.spec_mul(
                    x[i + 1].spec_sub(x[i]),
                ).spec_sub(
                    cell_extremum(f, x, extrema, true, (i + 1) as nat).0.spec_mul(
                        x[i + 2].spec_sub(x[i + 1]),
                    ),
                ),
        ),
    )
}

/// The moves that Newton's method asks of the inner nodes: the solution of
/// its system.
pub open spec fn newton_moves<T: Float, F: UnivariateFn<T>, DF: UnivariateFn<T>>(
    f: F,
    df: DF,
    x: Seq<Number<T>>,
    extrema: Seq<(Number<T>, Number<T>)>,
) -> Seq<Number<T>> {
    let system = newton_system(f, df, x, extrema);
    Seq::new(
        (x.len() - 2) as nat,
        |i: int| tma_solution(system.0, system.1, system.2, system.3, i as nat),
    )
}

/// The place nearest to `target` that is no further than the neighbours
/// `before` and `after`, whichever of the two is the lower.
pub open spec fn spec_clamp_between<T: Float>(
    target: Number<T>,
    before: Number<T>,
    after: Number<T>,
) -> Number<T> {
    let bounds = if after.spec_gt(before) {
        (before, after)
    } else {
        (after, before)
    };
    target.spec_min(bounds.1).spec_max(bounds.0)
}

/// Constrains a node to the bounds set by its neighbours: between two
/// neighbours that are in order, it is in order with both.
pub fn clamp_between<T: Float>(target: Number<T>, before: Number<T>, after: Number<T>) -> (place:
    Number<T>)
    ensures
        place == spec_clamp_between(target, before, after),
        before.spec_le(after) ==> before.spec_le(place) && place.spec_le(after),
        after.spec_le(before) ==> after.spec_le(place) && place.spec_le(before),
{
    let (xmin, xmax) = if after.gt(before) {
        (before, after)
    } else {
        (after, before)
    };
    target.min(xmax).max(xmin)
}

/// A node that is put between its neighbours leaves the nodes in the order
/// in which they were.
pub proof fn lemma_node_between_keeps_order<T: Float>(x: Seq<Number<T>>, j: int, place: Number<T>)
    requires
        0 < j < x.len() - 1,
        x[j - 1].spec_le(x[j + 1]) ==> x[j - 1].spec_le(place) && place.spec_le(x[j + 1]),
        x[j + 1].spec_le(x[j - 1]) ==> x[j + 1].spec_le(place) && place.spec_le(x[j - 1]),
    ensures
        is_increasing(x) ==> is_increasing(x.update(j, place)),
        is_decreasing(x) ==> is_decreasing(x.update(j, place)),
{
    let y = x.update(j, place);
    if is_increasing(x) {
        assert(x[j - 1].spec_le(x[j]));
        assert(x[j].spec_le(x[j + 1]));
        assert forall|k: int| 0 <= k < y.len() - 1 implies (#[trigger] y[k]).spec_le(y[k + 1]) by {
            assert(x[k].spec_le(x[k + 1]));
        }
    }
    if is_decreasing(x) {
        assert(x[j].spec_le(x[j - 1]));
        assert(x[j + 1].spec_le(x[j]));
        assert forall|k: int| 0 <= k < y.len() - 1 implies y[k + 1].spec_le(#[trigger] y[k]) by {
            assert(x[k + 1].spec_le(x[k]));
        }
    }
}

/// Where node `i` goes: by its move times the relaxation, but no further
/// than its neighbours, of which the one before has moved already and the
/// one after has not. The first node stays.
pub open spec fn moved<T: Float>(
    x: Seq<Number<T>>,
    moves: Seq<Number<T>>,
    relaxation: Number<T>,
    i: nat,
) -> Number<T>
    decreases i,
{
    if i == 0 {
        x[0]
    } else {
        spec_clamp_between(
            x[i as int].spec_add(relaxation.spec_mul(moves[i - 1])),
            moved(x, moves, relaxation, (i - 1) as nat),
            x[i as int + 1],
        )
    }
}

/// The partition after one iteration of Newton's method on the partition
/// `x`: the inner nodes moved, the end nodes kept.
pub open spec fn newton_step<T: Float, F: UnivariateFn<T>, DF: UnivariateFn<T>>(
    f: F,
    df: DF,
    x: Seq<Number<T>>,
    extrema: Seq<(Number<T>, Number<T>)>,
    relaxation: Number<T>,
) -> Seq<Number<T>> {
    Seq::new(
        x.len(),
        |j: int|
            if 0 < j < x.len() - 1 {
                moved(x, newton_moves(f, df, x, extrema), relaxation, j as nat)
            } else {
                x[j]
            },
    )
}

/// The partition that the tabulation ends with, if it ends with one, from
/// the partition `x` reached after `iter` iterations. A partition that
/// passes the convergence test is the last: it is the result if its nodes
/// grow or fall all along, else there is none. There is none either once
/// `max_iter` iterations are made, or if the mean area is not a number.
/// Else one more iteration is made.
pub open spec fn newton_search<T: Float, F: UnivariateFn<T>, DF: UnivariateFn<T>>(
    f: F,
    df: DF,
    extrema: Seq<(Number<T>, Number<T>)>,
    tolerance: Number<T>,
    relaxation: Number<T>,
    x: Seq<Number<T>>,
    iter: nat,
    max_iter: nat,
) -> Option<Seq<Number<T>>>
    decreases max_iter - iter,
{
    if has_converged(f, x, extrema, tolerance) {
        if is_strictly_increasing(x) || is_strictly_decreasing(x) {
            Some(x)
        } else {
            None
        }
    } else if iter >= max_iter || mean_area(f, x, extrema).spec_is_nan() {
        None
    } else {
        newton_search(
            f,
            df,
            extrema,
            tolerance,
            relaxation,
            newton_step(f, df, x, extrema, relaxation),
            iter + 1,
            max_iter,
        )
    }
}

/// The partition that the tabulation of `f` ends with from the initial
/// guess `x_init`, if it ends with one: the search from the initial guess,
/// with those of the extrema that lie between its end nodes.
pub open spec fn spec_newton_tabulation<T: Float, F: UnivariateFn<T>, DF: UnivariateFn<T>>(
    f: F,
    df: DF,
    x_init: Seq<Number<T>>,
    x_extrema: Seq<Number<T>>,
    tolerance: Number<T>,
    relaxation: Number<T>,
    max_iter: u32,
) -> Option<Seq<Number<T>>> {
    newton_search(
        f,
        df,
        inner_extrema(f, x_extrema, x_init[0], x_init[x_init.len() - 1], x_extrema.len()),
        tolerance,
        relaxation,
        x_init,
        0,
        max_iter as nat,
    )
}

/// Whether `table` is the tabulation of `f` over its own partition: the
/// partition passes the convergence test; the infimum of each cell is the
/// least of the values at its nodes and at the extrema in it; and the
/// supremum of each cell is the largest area over the width of the cell, so
/// that all rectangles have the largest area.
pub open spec fn is_tabulation<P: Partition, T: Float, F: UnivariateFn<T>>(
    f: F,
    x_extrema: Seq<Number<T>>,
    tolerance: Number<T>,
    table: InitTable<P, T>,
) -> bool {
    let n = P::spec_size() as nat;
    let x = table.x@;
    let extrema = inner_extrema(f, x_extrema, x[0], x[n as int], x_extrema.len());
    &&& has_converged(f, x, extrema, tolerance)
    &&& forall|i: int|
        0 <= i < n ==> (#[trigger] table.yinf@[i]) == cell_extremum(
            f,
            x,
            extrema,
            false,
            i as nat,
        ).0
    &&& forall|i: int|
        0 <= i < n ==> (#[trigger] table.ysup@[i]) == rectangle_areas(f, x, extrema, n).0.spec_div(
            x[i + 1].spec_sub(x[i]).spec_abs(),
        )
}

/// A tabulation is a fixed point of the tabulator: the tabulation from the
/// partition of a table, with the same function, extrema and tolerance, ends
/// with that partition at once, whatever the derivative, the relaxation and
/// the number of iterations allowed.
pub proof fn lemma_tabulation_is_a_fixed_point<
    P: Partition,
    T: Float,
    F: UnivariateFn<T>,
    DF: UnivariateFn<T>,
>(
    f: F,
    df: DF,
    x_extrema: Seq<Number<T>>,
    tolerance: Number<T>,
    relaxation: Number<T>,
    max_iter: u32,
    table: InitTable<P, T>,
)
    requires
        table.x@.len() == P::spec_size() + 1,
        is_tabulation(f, x_extrema, tolerance, table),
        is_strictly_increasing(table.x@) || is_strictly_decreasing(table.x@),
    ensures
        spec_newton_tabulation(f, df, table.x@, x_extrema, tolerance, relaxation, max_iter)
            == Some(table.x@),
{
}

/// Computes an ETF distribution initialization table using Newton's method.
///
/// The multivariate Newton's method is used to compute a partition such that
/// the rectangles making up an upper Riemann sum of function `f` have equal
/// areas.
///
/// If successful, the returned table contains the partition as well as the
/// extrema of the function over each sub-interval (see [`is_tabulation`]).
/// The two end nodes of the partition are those of the initial guess: only
/// the inner nodes move, and each moves no further than its neighbours.
/// Nodes that come in order thus stay in order, whatever the function and
/// its derivative return. The nodes of a table grow, or fall, all along: a
/// partition that passes the convergence test with two nodes in the same
/// place is refused like one that does not converge.
///
/// Function `f`, its derivative `df` and an ordered sequence `x_extrema` of the
/// extrema of `f` (boundary points excluded) must be provided, as well as a
/// reasonable initial guess `x_init` for the partition. The extrema are
/// expected in the order in which the cells meet them: growing where the
/// nodes grow, falling where the nodes fall. Those that lie strictly between
/// the two end nodes are counted, whichever end is the lower; each is taken
/// in by the cell in which it lies once the extrema before it are taken in.
///
/// Convergence is deemed achieved when the difference between the areas of the
/// largest rectangle and of the smallest rectangle relative to the average area
/// of all rectangles is at most the specified tolerance (see
/// [`has_converged`]). An initial guess that passes this test, with nodes
/// that grow or fall all along, is tabulated as it is. If convergence is not
/// reached after the specified maximum
/// number of iterations, or if the average area is not a number, a
/// `TabulationError` is returned.
///
/// In order to prevent sampling bias, once convergence is achieved the size of
/// all rectangles is normalized to that of the largest rectangle. A higher
/// tabulation tolerance therefore results in slightly larger rectangles,
/// meaning that sampling will be slightly suboptimal due to more frequent top
/// floor acceptance-rejection test. This does not affect, however, the quality
/// of the samples. Too low tolerances, on the other hand, may lead to spurious
/// convergence failures due to floating-point round-off errors.
///
/// The recommended value for `relaxation` is 1, but a relaxation coefficient
/// lower than 1 (resp. greater than 1) may be specified to improve convergence
/// robustness (resp. convergence speed).
pub fn newton_tabulation<P: Partition, T: Float, F: UnivariateFn<T>, DF: UnivariateFn<T>>(
    f: &F,
    df: &DF,
    x_init: &NodeArray<P, T>,
    x_extrema: &[Number<T>],
    tolerance: Number<T>,
    relaxation: Number<T>,
    max_iter: u32,
) -> (result: Result<InitTable<P, T>, TabulationError>)
    ensures
        result matches Ok(table) ==> {
            &&& table.x@.len() == P::spec_size() + 1
            &&& table.yinf@.len() == P::spec_size()
            &&& table.ysup@.len() == P::spec_size()
            &&& table.x@[0] == x_init@[0]
            &&& table.x@[P::spec_size() as int] == x_init@[P::spec_size() as int]
            &&& is_increasing(x_init@) ==> is_increasing(table.x@)
            &&& is_decreasing(x_init@) ==> is_decreasing(table.x@)
            &&& is_strictly_increasing(table.x@) || is_strictly_decreasing(table.x@)
            &&& is_tabulation(*f, x_extrema@, tolerance, table)
        },
        has_converged(
            *f,
            x_init@,
            inner_extrema(
                *f,
                x_extrema@,
                x_init@[0],
                x_init@[P::spec_size() as int],
                x_extrema@.len(),
            ),
            tolerance,
        ) && (
            is_strictly_increasing(x_init@) || is_strictly_decreasing(x_init@)
        ) ==> (result matches Ok(
            table,
        ) && table.x@ == x_init@),
        max_iter == 0 && !has_converged(
            *f,
            x_init@,
            inner_extrema(
                *f,
                x_extrema@,
                x_init@[0],
                x_init@[P::spec_size() as int],
                x_extrema@.len(),
            ),
            tolerance,
        ) ==> result is Err,
        match spec_newton_tabulation(
            *f,
            *df,
            x_init@,
            x_extrema@,
            tolerance,
            relaxation,
            max_iter,
        ) {
            Some(x) => result matches Ok(table) && table.x@ == x,
            None => result is Err,
        },
{
    proof {
        P::lemma_size();
    }
    let n = P::size();

    // Initialize the quadrature table partition with the initial partition.
    let mut x: NodeArray<P, T> = NodeArray::default();
    for i in 0..(n + 1)
        invariant
            n == P::spec_size(),
            x@.len() == n + 1,
            forall|j: int| 0 <= j < i ==> x@[j] == x_init@[j],
    {
        x.set(i, x_init.get(i));
    }
    proof {
        use_type_invariant(x_init);
        assert(x@ =~= x_init@);
    }
    let mut yinf: IntervalArray<P, T> = IntervalArray::default();
    let mut ysup: IntervalArray<P, T> = IntervalArray::default();

    // Main vectors.
    let mut y = vec![Number::zero(); n + 1];
    let mut dx = vec![Number::zero(); n - 1];
    let mut dy_dx = vec![Number::zero(); n + 1];
    let mut dysup_dxl = vec![Number::zero(); n];
    let mut dysup_dxr = vec![Number::zero(); n];
    let mut minus_s = vec![Number::zero(); n - 1];
    let mut ds_dxc = vec![Number::zero(); n - 1];
    let mut ds_dxl = vec![Number::zero(); n - 1];
    let mut ds_dxr = vec![Number::zero(); n - 1];

    // Make a vector of the (x,y) tuples of all extrema that are actually
    // within the partition.
    let mut extrema: Vec<(Number<T>, Number<T>)> = Vec::new();
    for k in 0..x_extrema.len()
        invariant
            n == P::spec_size(),
            x@.len() == n + 1,
            extrema@ == inner_extrema(*f, x_extrema@, x@[0], x@[n as int], k as nat),
    {
        let x_e = x_extrema[k];
        let y_e = f.eval(x_e);
        let (first, last) = (x.get(0), x.get(n));
        if (x_e.gt(first) && x_e.lt(last)) || (x_e.gt(last) && x_e.lt(first)) {
            extrema.push((x_e, y_e));
        }
    }
    let ghost ext = extrema@;

    // Boundary values are constants.
    y.set(0, f.eval(x.get(0)));
    y.set(n, f.eval(x.get(n)));
    dy_dx.set(0, Number::zero());
    dy_dx.set(n, Number::zero());

    // Loop until convergence is achieved or the maximum number of iteration is reached.
    let mut iter: u32 = 0;
    loop
        invariant
            n == P::spec_size(),
            16 <= n <= 4096,
            iter <= max_iter,
            iter == 0 ==> x@ == x_init@,
            iter > 0 ==> !has_converged(*f, x_init@, ext, tolerance),
            x_init@.len() == n + 1,
            newton_search(
                *f,
                *df,
                ext,
                tolerance,
                relaxation,
                x@,
                iter as nat,
                max_iter as nat,
            ) == newton_search(*f, *df, ext, tolerance, relaxation, x_init@, 0, max_iter as nat),
            dy_dx@[0] == Number::<T>::spec_zero(),
            dy_dx@[n as int] == Number::<T>::spec_zero(),
            x@.len() == n + 1,
            yinf@.len() == n,
            ysup@.len() == n,
            x@[0] == x_init@[0],
            x@[n as int] == x_init@[n as int],
            is_increasing(x_init@) ==> is_increasing(x@),
            is_decreasing(x_init@) ==> is_decreasing(x@),
            extrema@ == ext,
            ext == inner_extrema(*f, x_extrema@, x@[0], x@[n as int], x_extrema@.len()),
            y.len() == n + 1,
            y@[0] == f.spec_eval(x@[0]),
            y@[n as int] == f.spec_eval(x@[n as int]),
            dy_dx.len() == n + 1,
            dx.len() == n - 1,
            dysup_dxl.len() == n,
            dysup_dxr.len() == n,
            minus_s.len() == n - 1,
            ds_dxc.len() == n - 1,
            ds_dxl.len() == n - 1,
            ds_dxr.len() == n - 1,
        decreases max_iter - iter,
    {
        // Update inner nodes values.
        for i in 1..n
            invariant
                n == P::spec_size(),
                x@.len() == n + 1,
                y.len() == n + 1,
                dy_dx.len() == n + 1,
                y@[0] == f.spec_eval(x@[0]),
                y@[n as int] == f.spec_eval(x@[n as int]),
                forall|j: int| 1 <= j < i ==> (#[trigger] y@[j]) == f.spec_eval(x@[j]),
                dy_dx@[0] == Number::<T>::spec_zero(),
                dy_dx@[n as int] == Number::<T>::spec_zero(),
                forall|j: int| 1 <= j < i ==> (#[trigger] dy_dx@[j]) == df.spec_eval(x@[j]),
        {
            y.set(i, f.eval(x.get(i)));
            dy_dx.set(i, df.eval(x.get(i)));
        }
        assert forall|j: int| 0 <= j <= n implies (#[trigger] y@[j]) == f.spec_eval(x@[j]) by {
        }
        assert forall|j: int| 0 <= j <= n implies (#[trigger] dy_dx@[j]) == node_slope(
            *df,
            x@,
            j,
        ) by {
        }

        // Determine the supremum fsup of y within [x[i], x[i+1]),
        // the partial derivatives of fsup with respect to x[i] and x[i+1],
        // the minimum and maximum partition areas and the total area.
        let mut extremum: usize = 0;  // position of the last extremum not yet passed
        let mut max_area = Number::zero();
        let mut min_area = Number::infinity();
        let mut sum_area = Number::zero();
        for i in 0..n
            invariant
                n == P::spec_size(),
                x@.len() == n + 1,
                ysup@.len() == n,
                y.len() == n + 1,
                dy_dx.len() == n + 1,
                dysup_dxl.len() == n,
                dysup_dxr.len() == n,
                extremum <= extrema.len(),
                extrema@ == ext,
                forall|j: int| 0 <= j <= n ==> (#[trigger] y@[j]) == f.spec_eval(x@[j]),
                forall|j: int| 0 <= j <= n ==> (#[trigger] dy_dx@[j]) == node_slope(*df, x@, j),
                extremum == (if i == 0 {
                    0nat
                } else {
                    cell_extremum(*f, x@, ext, true, (i - 1) as nat).1
                }),
                (max_area, min_area, sum_area) == rectangle_areas(*f, x@, ext, i as nat),
                forall|j: int|
                    0 <= j < i ==> (#[trigger] ysup@[j]) == cell_extremum(
                        *f,
                        x@,
                        ext,
                        true,
                        j as nat,
                    ).0,
                forall|j: int|
                    0 <= j < i ==> (#[trigger] dysup_dxl@[j]) == cell_slopes(*f, *df, x@, ext, j).0,
                forall|j: int|
                    0 <= j < i ==> (#[trigger] dysup_dxr@[j]) == cell_slopes(*f, *df, x@, ext, j).1,
        {
            let (ysup_, dysup_dxl_, dysup_dxr_) = if y[i].gt(y[i + 1]) {
                (y[i], dy_dx[i], Number::zero())
            } else {
                (y[i + 1], Number::zero(), dy_dx[i + 1])
            };
            ysup.set(i, ysup_);
            dysup_dxl.set(i, dysup_dxl_);
            dysup_dxr.set(i, dysup_dxr_);
            let ghost mut replaced = false;

            // Check if there are suprema between x[i] and x[i+1] and
            // advance the extrema cursor until the current extremum no
            // longer lies between x[i] and x[i+1].
            while extremum < extrema.len() && extrema[extremum].0.gt(x.get(i))
                != extrema[extremum].0.gt(x.get(i + 1))
                invariant
                    n == P::spec_size(),
                    i < n,
                    x@.len() == n + 1,
                    ysup@.len() == n,
                    dysup_dxl.len() == n,
                    dysup_dxr.len() == n,
                    extremum <= extrema.len(),
                    extrema@ == ext,
                    scan(
                        ext,
                        x@[i as int],
                        x@[i + 1],
                        true,
                        ysup@[i as int],
                        extremum as nat,
                        replaced,
                    ) == cell_extremum(*f, x@, ext, true, i as nat),
                    forall|j: int|
                        0 <= j < i ==> (#[trigger] ysup@[j]) == cell_extremum(
                            *f,
                            x@,
                            ext,
                            true,
                            j as nat,
                        ).0,
                    forall|j: int|
                        0 <= j < i ==> (#[trigger] dysup_dxl@[j]) == cell_slopes(
                            *f,
                            *df,
                            x@,
                            ext,
                            j,
                        ).0,
                    forall|j: int|
                        0 <= j < i ==> (#[trigger] dysup_dxr@[j]) == cell_slopes(
                            *f,
                            *df,
                            x@,
                            ext,
                            j,
                        ).1,
                    dysup_dxl@[i as int] == (if replaced {
                        Number::<T>::spec_zero()
                    } else {
                        dysup_dxl_
                    }),
                    dysup_dxr@[i as int] == (if replaced {
                        Number::<T>::spec_zero()
                    } else {
                        dysup_dxr_
                    }),
                decreases extrema.len() - extremum,
            {
                let y_e = extrema[extremum].1;
                if y_e.gt(ysup.get(i)) {
                    ysup.set(i, y_e);
                    dysup_dxl.set(i, Number::zero());
                    dysup_dxr.set(i, Number::zero());
                    proof {
                        replaced = true;
                    }
                }
                extremum += 1;
            }

            let area = ysup.get(i).mul(x.get(i + 1).sub(x.get(i)).abs());
            max_area = max_area.max(area);
            min_area = min_area.min(area);
            sum_area = sum_area.add(area);
        }

        // Return the table if convergence was achieved.
        let mean_area = sum_area.div(Number::cast_usize(n));

        if max_area.sub(min_area).le(tolerance.mul(mean_area)) {
            assert(has_converged(*f, x@, ext, tolerance));
            // A partition in which two nodes meet is no table.
            let mut increasing = true;
            let mut decreasing = true;
            for i in 0..n
                invariant
                    n == P::spec_size(),
                    x@.len() == n + 1,
                    increasing == forall|j: int| 0 <= j < i ==> (#[trigger] x@[j])
                        .spec_lt(x@[j + 1]),
                    decreasing == forall|j: int| 0 <= j < i ==> x@[j + 1].spec_lt(#[trigger] x@[j]),
            {
                increasing = increasing && x.get(i).lt(x.get(i + 1));
                decreasing = decreasing && x.get(i + 1).lt(x.get(i));
            }
            if !(increasing || decreasing) {
                return Err(TabulationError::ConvergenceFailure);
            }
            // At this point the areas are likely to differ slightly due to
            // roundoff errors, which would introduce some bias when the
            // partitions are sampled.
            //
            // A simple way to cancel this bias is to slightly increase the
            // `ysup` values so as to make all areas equal to `max_area`. This
            // makes the top-floor rejection slightly suboptimal, but the loss
            // of efficiency is unlikely to be noticeable.
            for i in 0..n
                invariant
                    n == P::spec_size(),
                    x@.len() == n + 1,
                    ysup@.len() == n,
                    forall|j: int|
                        0 <= j < i ==> (#[trigger] ysup@[j]) == max_area.spec_div(
                            x@[j + 1].spec_sub(x@[j]).spec_abs(),
                        ),
            {
                ysup.set(i, max_area.div(x.get(i + 1).sub(x.get(i)).abs()));
            }

            // Determine the infimum yinf of y in [x[i], x[i+1]).
            extremum = 0;

            for i in 0..n
                invariant
                    n == P::spec_size(),
                    x@.len() == n + 1,
                    yinf@.len() == n,
                    y.len() == n + 1,
                    extremum <= extrema.len(),
                    extrema@ == ext,
                    forall|j: int| 0 <= j <= n ==> (#[trigger] y@[j]) == f.spec_eval(x@[j]),
                    extremum == (if i == 0 {
                        0nat
                    } else {
                        cell_extremum(*f, x@, ext, false, (i - 1) as nat).1
                    }),
                    forall|j: int|
                        0 <= j < i ==> (#[trigger] yinf@[j]) == cell_extremum(
                            *f,
                            x@,
                            ext,
                            false,
                            j as nat,
                        ).0,
            {
                yinf.set(
                    i,
                    if y[i].gt(y[i + 1]) {
                        y[i + 1]
                    } else {
                        y[i]
                    },
                );
                let ghost mut replaced = false;

                // Check if there are minima between x[i] and x[i+1] and
                // advance the extrema cursor until the current extremum no
                // longer lies between x[i] and x[i+1].
                while extremum < extrema.len() && extrema[extremum].0.gt(x.get(i))
                    != extrema[extremum].0.gt(x.get(i + 1))
                    invariant
                        n == P::spec_size(),
                        i < n,
                        x@.len() == n + 1,
                        yinf@.len() == n,
                        extremum <= extrema.len(),
                        extrema@ == ext,
                        forall|j: int|
                            0 <= j < i ==> (#[trigger] yinf@[j]) == cell_extremum(
                                *f,
                                x@,
                                ext,
                                false,
                                j as nat,
                            ).0,
                        scan(
                            ext,
                            x@[i as int],
                            x@[i + 1],
                            false,
                            yinf@[i as int],
                            extremum as nat,
                            replaced,
                        ) == cell_extremum(*f, x@, ext, false, i as nat),
                    decreases extrema.len() - extremum,
                {
                    let y_e = extrema[extremum].1;
                    if y_e.lt(yinf.get(i)) {
                        yinf.set(i, y_e);
                        proof {
                            replaced = true;
                        }
                    }
                    extremum += 1;
                }
            }

            return Ok(InitTable { x, yinf, ysup });
        }
        assert(!has_converged(*f, x@, ext, tolerance));
        assert(!has_converged(*f, x_init@, ext, tolerance));

        // Exit if convergence could not be achieved.
        if iter >= max_iter || mean_area.is_nan() {
            return Err(TabulationError::ConvergenceFailure);
        }
        iter += 1;

        // Difference in area between neighboring rectangles and partial
        // derivatives of s with respect to x[i], x[i+1] and x[i+2].
        let ghost system = newton_system(*f, *df, x@, ext);
        for i in 0..(n - 1)
            invariant
                n == P::spec_size(),
                16 <= n,
                x@.len() == n + 1,
                ysup@.len() == n,
                dysup_dxl.len() == n,
                dysup_dxr.len() == n,
                minus_s.len() == n - 1,
                ds_dxc.len() == n - 1,
                ds_dxl.len() == n - 1,
                ds_dxr.len() == n - 1,
                system == newton_system(*f, *df, x@, ext),
                forall|j: int|
                    0 <= j < n ==> (#[trigger] ysup@[j]) == cell_extremum(
                        *f,
                        x@,
                        ext,
                        true,
                        j as nat,
                    ).0,
                forall|j: int|
                    0 <= j < n ==> (#[trigger] dysup_dxl@[j]) == cell_slopes(*f, *df, x@, ext, j).0,
                forall|j: int|
                    0 <= j < n ==> (#[trigger] dysup_dxr@[j]) == cell_slopes(*f, *df, x@, ext, j).1,
                forall|j: int| 0 <= j < i ==> (#[trigger] ds_dxl@[j]) == system.0[j],
                forall|j: int| 0 <= j < i ==> (#[trigger] ds_dxc@[j]) == system.1[j],
                forall|j: int| 0 <= j < i ==> (#[trigger] ds_dxr@[j]) == system.2[j],
                forall|j: int| 0 <= j < i ==> (#[trigger] minus_s@[j]) == system.3[j],
        {
            let left = x.get(i + 1).sub(x.get(i));
            let right = x.get(i + 2).sub(x.get(i + 1));
            minus_s.set(i, ysup.get(i).mul(left).sub(ysup.get(i + 1).mul(right)));

            ds_dxl.set(i, ysup.get(i).sub(left.mul(dysup_dxl[i])));
            ds_dxc.set(
                i,
                right.mul(dysup_dxl[i + 1]).sub(left.mul(dysup_dxr[i])).sub(
                    ysup.get(i).add(ysup.get(i + 1)),
                ),
            );
            ds_dxr.set(i, ysup.get(i + 1).add(right.mul(dysup_dxr[i + 1])));
        }

        // Solve the tri-diagonal system S + (dS/dX)*dX = 0 with:
        //         | ds0/dx1 ds0/dx2    0     ...                    0     |
        //         | ds1/dx1 ds1/dx2 ds1/dx3    0     ...            0     |
        // dS/dX = |    0    ds2/dx2 ds2/dx3 ds2/dx4    0     ...    0     |
        //         |                       ...                             |
        //         |    0     ...     0    ds(n-2)/dx(n-2) ds(n-2)/dx(n-2) |
        //
        //
        // and:
        //      | dx1     |         | minus_s0     |
        // dX = | ...     |    -S = | ...          |
        //      | dx(n-1) |         | minus_s(n-2) |
        proof {
            assert(ds_dxl@ =~= system.0);
            assert(ds_dxc@ =~= system.1);
            assert(ds_dxr@ =~= system.2);
            assert(minus_s@ =~= system.3);
        }
        solve_tma(&ds_dxl, &mut ds_dxc, &ds_dxr, &mut minus_s, &mut dx);
        let ghost moves = newton_moves(*f, *df, x@, ext);
        let ghost before = x@;
        proof {
            assert(dx@ =~= moves);
        }

        // Improve robustness by constraining updated positions within
        // the bounds set by former neighbors positions.
        for i in 1..n
            invariant
                n == P::spec_size(),
                x@.len() == n + 1,
                x@[0] == x_init@[0],
                x@[n as int] == x_init@[n as int],
                is_increasing(x_init@) ==> is_increasing(x@),
                is_decreasing(x_init@) ==> is_decreasing(x@),
                dx.len() == n - 1,
                dx@ == moves,
                before.len() == n + 1,
                forall|j: int| 0 < j < i ==> (#[trigger] x@[j]) == moved(
                    before,
                    moves,
                    relaxation,
                    j as nat,
                ),
                forall|j: int| i <= j <= n ==> (#[trigger] x@[j]) == before[j],
                x@[0] == before[0],
        {
            let target = x.get(i).add(relaxation.mul(dx[i - 1]));
            let xi = clamp_between(target, x.get(i - 1), x.get(i + 1));
            proof {
                lemma_node_between_keeps_order(x@, i as int, xi);
                assert(x@[i - 1] == moved(before, moves, relaxation, (i - 1) as nat)) by {
                    if i == 1 {
                        assert(moved(before, moves, relaxation, 0) == before[0]);
                    }
                }
                assert(xi == moved(before, moves, relaxation, i as nat));
            }
            x.set(i, xi);
        }
        proof {
            assert(x@ =~= newton_step(*f, *df, before, ext, relaxation));
        }
    }
}

/// Distribution envelope based on a shifted Weibull distribution tail.
///
/// The tail of a shifted Weibull probability density function constitutes a
/// reasonably efficient envelope function for many distributions while being at
/// the same time relatively cheap to generate by inverse transform sampling.
///
/// The corresponding envelope function is:
///
///  `f(x) = w*a/|b|*((x-c)/b)^(a-1)*exp[-((x-c)/b)^a]`,
///
/// if `x/b > x0/b`, or `f(x) = 0` otherwise.
///
/// The parameters are:
///
/// * `w`: the *weight* (amplitude) of the envelope relative to the normalized
///   Weibull PDF
/// * `a>0`: the *scale* parameter
/// * `b≠0`: the *shape* parameter
/// * `c`: the *location* parameter
/// * `x0`: the *cut-in* position at which the tail starts
///
/// This generalization of the Weibull PDF can be shifted along the `x` axis
/// (location parameter `c`) and can be mirrored with respect to `x=c` by using
/// a negative `b`. The cut-in position of the tail must satisfy `x0 ≥ c` if
/// `b>0`, or `x0 ≤ c` if `b<0`.
///
/// The weight `w` controls the vertical scaling of the function relative to the
/// normalized Weibull PDF (`w=1`).
#[derive(Copy, Clone)]
pub struct WeibullEnvelope<T: Float, F> {
    a: Number<T>,
    inv_a: Number<T>,
    b: Number<T>,
    inv_b: Number<T>,
    c: Number<T>,
    x0: Number<T>,
    s: Number<T>,
    alpha: Number<T>,
    f: F,
}

impl<T: Float, F: UnivariateFn<T>> WeibullEnvelope<T, F> {
    /// The parameters that the envelope was made with: scale `a`, shape `b`,
    /// location `c` and cut-in position `x0`.
    pub closed spec fn parameters(&self) -> (Number<T>, Number<T>, Number<T>, Number<T>) {
        (self.a, self.b, self.c, self.x0)
    }

    /// The function that the envelope covers.
    pub closed spec fn pdf(&self) -> F {
        self.f
    }

    /// The coefficients that the envelope keeps besides its parameters:
    /// `1 / a`, `1 / b`, the factor `w |a / b|` of the envelope function for
    /// the weight `w`, and `((x0 - c) / b)^a`.
    pub closed spec fn coefficients(&self) -> (Number<T>, Number<T>, Number<T>, Number<T>) {
        (self.inv_a, self.inv_b, self.s, self.alpha)
    }

    /// The coefficients of the envelope with the given weight, scale `a`,
    /// shape `b`, location `c` and cut-in position `x0`.
    pub open spec fn coefficients_for(
        weight: Number<T>,
        scale: Number<T>,
        shape: Number<T>,
        location: Number<T>,
        cut_in: Number<T>,
    ) -> (Number<T>, Number<T>, Number<T>, Number<T>) {
        (
            Number::spec_one().spec_div(scale),
            Number::spec_one().spec_div(shape),
            weight.spec_mul(scale.spec_div(shape).spec_abs()),
            cut_in.spec_sub(location).spec_div(shape).spec_powf(scale),
        )
    }

    /// Creates a new Weibull tail envelope distribution for a given probability
    /// density function.
    ///
    /// The probability density function `pdf` of the distribution to be sampled
    /// must be below the envelope over the whole sampling range, meaning for
    /// all `x` greater than the cut-in tail position if the shape parameter is
    /// positive, or for all `x` lesser than the cut-in tail position if the
    /// shape parameter is negative.
    pub fn new(
        weight: Number<T>,
        scale: Number<T>,
        shape: Number<T>,
        location: Number<T>,
        cut_in: Number<T>,
        pdf: F,
    ) -> (envelope: Self)
        ensures
            envelope.parameters() == (scale, shape, location, cut_in),
            envelope.coefficients() == Self::coefficients_for(
                weight,
                scale,
                shape,
                location,
                cut_in,
            ),
            envelope.pdf() == pdf,
    {
        Self {
            a: scale,
            inv_a: Number::one().div(scale),
            b: shape,
            inv_b: Number::one().div(shape),
            c: location,
            x0: cut_in,
            s: weight.mul(scale.div(shape).abs()),
            alpha: cut_in.sub(location).div(shape).powf(scale),
            f: pdf,
        }
    }

    /// The area under the envelope: `s exp(-z0) b / a` with
    /// `z0 = ((x0 - c) / b)^a`, where `s` is the factor of the envelope
    /// function, and the quotients are products with `1 / b` and `1 / a`.
    pub open spec fn spec_area(&self) -> Number<T> {
        let (a, b, c, x0) = self.parameters();
        let (inv_a, inv_b, s, alpha) = self.coefficients();
        let z0 = x0.spec_sub(c).spec_mul(inv_b).spec_powf(a);

        s.spec_mul(z0.spec_neg().spec_exp()).spec_mul(inv_a).spec_mul(b)
    }

    /// Computes the area under the envelope.
    pub fn area(&self) -> (area: Number<T>)
        ensures
            area == self.spec_area(),
    {
        let z0 = self.x0.sub(self.c).mul(self.inv_b).powf(self.a);

        self.s.mul(z0.neg().exp()).mul(self.inv_a).mul(self.b)
    }

    /// The number that the envelope gives for the uniform number `r`, by
    /// inversion of its cumulative distribution function:
    /// `c + b (alpha - ln(1 - r))^(1 / a)` with `alpha = ((x0 - c) / b)^a`.
    pub open spec fn spec_draw(&self, r: Number<T>) -> Number<T> {
        let (a, b, c, x0) = self.parameters();
        let (inv_a, inv_b, s, alpha) = self.coefficients();
        c.spec_add(
            b.spec_mul(alpha.spec_sub(Number::spec_one().spec_sub(r).spec_ln()).spec_powf(inv_a)),
        )
    }

    /// The height of the envelope at `x`: `s z exp(-xs z)` with
    /// `xs = (x - c) / b` and `z = xs^(a - 1)`.
    pub open spec fn spec_height(&self, x: Number<T>) -> Number<T> {
        let (a, b, c, x0) = self.parameters();
        let (inv_a, inv_b, s, alpha) = self.coefficients();
        let x_scaled = x.spec_sub(c).spec_mul(inv_b);
        let z = x_scaled.spec_powf(a.spec_sub(Number::spec_one()));
        s.spec_mul(z).spec_mul(x_scaled.spec_neg().spec_mul(z).spec_exp())
    }

    /// The outcome of a trial with the uniform numbers `r` and `r_accept`:
    /// the number drawn for `r`, if the height of the envelope there, times
    /// `r_accept`, is at most the value of the function.
    pub open spec fn spec_trial(&self, r: Number<T>, r_accept: Number<T>) -> Option<Number<T>> {
        let x = self.spec_draw(r);
        if self.spec_height(x).spec_mul(r_accept).spec_le(self.pdf().spec_eval(x)) {
            Some(x)
        } else {
            None
        }
    }

    /// Makes one trial with the uniform numbers `r` and `r_accept`.
    pub fn trial(&self, r: Number<T>, r_accept: Number<T>) -> (sample: Option<Number<T>>)
        ensures
            sample == self.spec_trial(r, r_accept),
    {
        let x = self.c.add(self.b.mul(self.alpha.sub(Number::one().sub(r).ln()).powf(self.inv_a)));
        let x_scaled = x.sub(self.c).mul(self.inv_b);
        let z = x_scaled.powf(self.a.sub(Number::one()));
        let y = self.s.mul(z).mul(x_scaled.neg().mul(z).exp());

        if y.mul(r_accept).le(self.f.eval(x)) {
            Some(x)
        } else {
            None
        }
    }
}

impl<T: Float, F: UnivariateFn<T>> Envelope<T> for WeibullEnvelope<T, F> {
    /// Makes one trial with two uniform numbers that it draws (see
    /// [`trial`](#method.trial)).
    fn try_sample<R: RngCore + ?Sized>(&self, rng: &mut R) -> (sample: Option<Number<T>>)
        ensures
            exists|r: Number<T>, r_accept: Number<T>|
                r.is_in_unit_interval() && r_accept.is_in_unit_interval() && sample
                    == #[trigger] self.spec_trial(r, r_accept),
    {
        let r = Number::gen(rng);
        let r_accept = Number::gen(rng);
        let sample = self.trial(r, r_accept);
        assert(r.is_in_unit_interval() && r_accept.is_in_unit_interval() && sample
            == self.spec_trial(r, r_accept));
        sample
    }
}

/// The diagonal term of row `i` once the sub-diagonal is eliminated from the
/// first row down: that of the first row is unchanged; from that of any
/// other row the super-diagonal term of the row above is taken, times the
/// pivot `a[i] / diagonal[i - 1]`.
pub open spec fn eliminated_diagonal<T: Float>(
    a: Seq<Number<T>>,
    b: Seq<Number<T>>,
    c: Seq<Number<T>>,
    i: nat,
) -> Number<T>
    decreases i,
{
    if i == 0 {
        b[0]
    } else {
        b[i as int].spec_sub(
            a[i as int].spec_div(eliminated_diagonal(a, b, c, (i - 1) as nat)).spec_mul(c[i - 1]),
        )
    }
}

/// The right-hand side of row `i` once the sub-diagonal is eliminated: from
/// that of any row but the first, the eliminated right-hand side of the row
/// above is taken, times the same pivot.
pub open spec fn eliminated_rhs<T: Float>(
    a: Seq<Number<T>>,
    b: Seq<Number<T>>,
    c: Seq<Number<T>>,
    rhs: Seq<Number<T>>,
    i: nat,
) -> Number<T>
    decreases i,
{
    if i == 0 {
        rhs[0]
    } else {
        rhs[i as int].spec_sub(
            a[i as int].spec_div(eliminated_diagonal(a, b, c, (i - 1) as nat)).spec_mul(
                eliminated_rhs(a, b, c, rhs, (i - 1) as nat),
            ),
        )
    }
}

/// The solution of row `i`, by substitution from the last row up in the
/// system that the elimination leaves.
pub open spec fn tma_solution<T: Float>(
    a: Seq<Number<T>>,
    b: Seq<Number<T>>,
    c: Seq<Number<T>>,
    rhs: Seq<Number<T>>,
    i: nat,
) -> Number<T>
    decreases a.len() - i,
{
    if i + 1 >= a.len() {
        eliminated_rhs(a, b, c, rhs, i).spec_div(eliminated_diagonal(a, b, c, i))
    } else {
        eliminated_rhs(a, b, c, rhs, i).spec_sub(
            c[i as int].spec_mul(tma_solution(a, b, c, rhs, i + 1)),
        ).spec_div(eliminated_diagonal(a, b, c, i))
    }
}

/// Tri-diagonal matrix algorithm.
///
/// Solves the system whose sub-diagonal is `a`, diagonal `b` and
/// super-diagonal `c` for the right-hand side `rhs`, and leaves the solution
/// in `sol`. For the sake of efficiency, diagonal terms and RHS are modified
/// in-place: they are left as the elimination of the sub-diagonal makes
/// them. All slices have equal length.
pub fn solve_tma<T: Float>(
    a: &Vec<Number<T>>,
    b: &mut Vec<Number<T>>,
    c: &Vec<Number<T>>,
    rhs: &mut Vec<Number<T>>,
    sol: &mut Vec<Number<T>>,
)
    requires
        a.len() >= 1,
        old(b).len() == a.len(),
        c.len() == a.len(),
        old(rhs).len() == a.len(),
        old(sol).len() == a.len(),
    ensures
        final(b).len() == a.len(),
        final(rhs).len() == a.len(),
        final(sol).len() == a.len(),
        forall|i: int|
            0 <= i < a.len() ==> (#[trigger] final(b)@[i]) == eliminated_diagonal(
                a@,
                old(b)@,
                c@,
                i as nat,
            ),
        forall|i: int|
            0 <= i < a.len() ==> (#[trigger] final(rhs)@[i]) == eliminated_rhs(
                a@,
                old(b)@,
                c@,
                old(rhs)@,
                i as nat,
            ),
        forall|i: int|
            0 <= i < a.len() ==> (#[trigger] final(sol)@[i]) == tma_solution(
                a@,
                old(b)@,
                c@,
                old(rhs)@,
                i as nat,
            ),
{
    let m = a.len();
    let ghost b0 = b@;
    let ghost rhs0 = rhs@;

    // Eliminate the sub-diagonal.
    for i in 1..m
        invariant
            m == a.len(),
            b.len() == m,
            c.len() == m,
            rhs.len() == m,
            b0.len() == m,
            rhs0.len() == m,
            forall|j: int| 0 <= j < i ==> (#[trigger] b@[j]) == eliminated_diagonal(
                a@,
                b0,
                c@,
                j as nat,
            ),
            forall|j: int|
                0 <= j < i ==> (#[trigger] rhs@[j]) == eliminated_rhs(a@, b0, c@, rhs0, j as nat),
            forall|j: int| i <= j < m ==> (#[trigger] b@[j]) == b0[j],
            forall|j: int| i <= j < m ==> (#[trigger] rhs@[j]) == rhs0[j],
    {
        let pivot = a[i].div(b[i - 1]);
        b.set(i, b[i].sub(pivot.mul(c[i - 1])));
        rhs.set(i, rhs[i].sub(pivot.mul(rhs[i - 1])));
    }

    // Solve the remaining upper bi-diagonal system.
    sol.set(m - 1, rhs[m - 1].div(b[m - 1]));
    let mut i = m - 1;
    while i > 0
        invariant
            m == a.len(),
            b.len() == m,
            c.len() == m,
            rhs.len() == m,
            sol.len() == m,
            i < m,
            forall|j: int| 0 <= j < m ==> (#[trigger] b@[j]) == eliminated_diagonal(
                a@,
                b0,
                c@,
                j as nat,
            ),
            forall|j: int|
                0 <= j < m ==> (#[trigger] rhs@[j]) == eliminated_rhs(a@, b0, c@, rhs0, j as nat),
            forall|j: int|
                i <= j < m ==> (#[trigger] sol@[j]) == tma_solution(a@, b0, c@, rhs0, j as nat),
        decreases i,
    {
        i -= 1;
        sol.set(i, rhs[i].sub(c[i].mul(sol[i + 1])).div(b[i]));
    }
}

} // verus!
