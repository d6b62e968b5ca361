//! Equal-area table function (ETF) samplers for continuous univariate
//! probability distributions.
//!
//! An ETF sampler covers the bulk of a probability density function with
//! rectangles of equal area, one for each cell of a partition of the support,
//! and what lies beyond with the envelope of a tail. A sample takes one random
//! word most of the time: its top bits select a cell, its low bits a point of
//! the rectangle of the cell, and the point is a sample if it lies under the
//! infimum of the function over the cell.
//!
//! * [`num`] has the words, the floating-point numbers as bit patterns, and
//!   the arithmetic that is asked of the machine.
//! * [`primitives`] has the partitions and tables, the tabulation that makes
//!   the rectangles equal, and the samplers.
//! * [`distributions`] has the normal, Cauchy, Gumbel, gamma and χ²
//!   distributions.
//!
//! The machine's arithmetic is rounded, so the contracts do not speak of real
//! numbers. They say which operations of the machine make up a result: each
//! operation of a format has a name for what it gives, and a contract states
//! a number as an expression over these names. What is decided on bit
//! patterns, such as the order of two numbers, the sign of a sample or the
//! rounding of a number to a word, is stated and proved in full.
//!
//! No function of the library loops without a bound or panics of its own
//! accord. A sampler makes one attempt at a sample in a call; a sample is
//! drawn by repeating attempts until one is accepted.

pub mod distributions;
pub mod num;
pub mod primitives;
