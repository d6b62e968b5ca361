//! ETF-based implementation of common continuous probability distributions.

pub use cauchy::{reciprocal_test, Cauchy, CauchyError, CauchyFloat, CauchyUInt};
pub use chi_squared::{ChiSquared, ChiSquaredError, ChiSquaredFloat};
pub use gamma::{Gamma, GammaError, GammaFloat, GammaUInt};
pub use gumbel::{Gumbel, GumbelError, GumbelFloat, GumbelUInt};
pub use normal::{CentralNormal, Normal, NormalError, NormalFloat, NormalUInt};

mod cauchy;
mod chi_squared;
mod gamma;
mod gumbel;
mod normal;
