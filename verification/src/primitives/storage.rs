//! Table data of a compiled sampler.

use crate::num::{Float, Number};
use vstd::prelude::*;

verus! {

/// What a sampler keeps of one cell of its table.
///
/// The last datum of a table stands for the end node of the partition and
/// carries only `beta`.
#[derive(Copy, Clone)]
pub struct Datum<T: Float> {
    /// `(x[i+1] - x[i]) / wedge_switch[i]`, or zero where the cell is always
    /// sampled through its wedge.
    pub alpha: Number<T>,
    /// `x[i] - x0`.
    pub beta: Number<T>,
    /// `(yinf[i] / ysup[i]) * tail_switch`, rounded: a random fraction up to
    /// this threshold falls in the rectangle under the infimum.
    pub wedge_switch: T::UInt,
}

} // verus!
