//! Tables and samplers, exercised with the two IEEE 754 formats.

use etf::num::{Float, Number, UInt};
use etf::primitives::layout::{max_switch, Parts};
use etf::primitives::partition::{
    InitTable, IntervalArray, NodeArray, Partition, P128, P16, P256, P4096,
};
use etf::primitives::util::{
    clamp_between, midpoint_prepartition, newton_tabulation, solve_tma, TabulationError,
    WeibullEnvelope,
};
use etf::primitives::{
    compute_tail_switch, kept_if, process_table, rectangle_coefficients, wedge_test, Attempt,
    DistAny, DistAnyTailed, DistCentral, DistCentralTailed, DistSymmetric, DistSymmetricTailed,
    Envelope, Step, UnivariateFn,
};
use rand_core::{Error, RngCore};

/// Error function, by its Maclaurin series below 1.5 and by the continued
/// fraction of the complementary function above.
fn erf(x: f64) -> f64 {
    if x.is_nan() {
        return x;
    }
    if x < 0.0 {
        return -erf(-x);
    }
    if x >= 1.5 {
        return 1.0 - erfc(x);
    }
    let mut term = x;
    let mut sum = x;
    let mut n = 0.0;
    while term.abs() > 1e-17 * sum.abs() {
        n += 1.0;
        term = -term * x * x / n;
        sum += term / (2.0 * n + 1.0);
    }
    sum * 2.0 / std::f64::consts::PI.sqrt()
}

/// Complementary error function.
fn erfc(x: f64) -> f64 {
    if x.is_nan() {
        return x;
    }
    if x < 1.5 {
        return 1.0 - erf(x);
    }
    if x > 27.0 {
        return 0.0;
    }
    // Continued fraction, evaluated from the tail. The depth is enough for
    // the full precision of the format.
    let mut f = x;
    let mut k = (12.0 + 200.0 / (x * x)).ceil();
    while k >= 1.0 {
        f = x + (k / 2.0) / f;
        k -= 1.0;
    }
    (-x * x).exp() / (f * std::f64::consts::PI.sqrt())
}

/// The value of a number of the library as a number of the machine.
trait Value {
    type V;
    fn v(self) -> Self::V;
}

impl Value for Number<F64> {
    type V = f64;
    fn v(self) -> f64 {
        f64::from_bits(self.to_bits())
    }
}

impl Value for Number<F32> {
    type V = f32;
    fn v(self) -> f32 {
        f32::from_bits(self.to_bits())
    }
}

/// The 64-bit floating-point format, with the arithmetic of the machine.
#[derive(Copy, Clone, Debug)]
struct F64;

/// The number `x` in the 64-bit format.
fn r64(x: f64) -> Number<F64> {
    Number::from_bits(x.to_bits())
}

impl Float for F64 {
    type UInt = u64;

    fn cast_u32(u: u32) -> Number<Self> {
        r64(u as f64)
    }
    fn cast_usize(u: usize) -> Number<Self> {
        r64(u as f64)
    }
    fn cast_uint(u: u64) -> Number<Self> {
        r64(u as f64)
    }
    fn add(x: Number<Self>, y: Number<Self>) -> Number<Self> {
        r64(x.v() + y.v())
    }
    fn sub(x: Number<Self>, y: Number<Self>) -> Number<Self> {
        r64(x.v() - y.v())
    }
    fn mul(x: Number<Self>, y: Number<Self>) -> Number<Self> {
        r64(x.v() * y.v())
    }
    fn div(x: Number<Self>, y: Number<Self>) -> Number<Self> {
        r64(x.v() / y.v())
    }
    fn powf(x: Number<Self>, y: Number<Self>) -> Number<Self> {
        r64(x.v().powf(y.v()))
    }
    fn sqrt(x: Number<Self>) -> Number<Self> {
        r64(x.v().sqrt())
    }
    fn tan(x: Number<Self>) -> Number<Self> {
        r64(x.v().tan())
    }
    fn atan(x: Number<Self>) -> Number<Self> {
        r64(x.v().atan())
    }
    fn ln(x: Number<Self>) -> Number<Self> {
        r64(x.v().ln())
    }
    fn log2(x: Number<Self>) -> Number<Self> {
        r64(x.v().log2())
    }
    fn exp(x: Number<Self>) -> Number<Self> {
        r64(x.v().exp())
    }
    fn erf(x: Number<Self>) -> Number<Self> {
        r64(erf(x.v()))
    }
    fn erfc(x: Number<Self>) -> Number<Self> {
        r64(erfc(x.v()))
    }
    fn mul_add(x: Number<Self>, a: Number<Self>, b: Number<Self>) -> Number<Self> {
        r64(x.v().mul_add(a.v(), b.v()))
    }

    // The names that the contracts of the library give to the results of the
    // operations: each stands for the operation itself.
    fn spec_cast_u32(u: u32) -> Number<Self> {
        Self::cast_u32(u)
    }
    fn spec_cast_usize(u: usize) -> Number<Self> {
        Self::cast_usize(u)
    }
    fn spec_cast_uint(u: u64) -> Number<Self> {
        Self::cast_uint(u)
    }
    fn spec_add(x: Number<Self>, y: Number<Self>) -> Number<Self> {
        Self::add(x, y)
    }
    fn spec_sub(x: Number<Self>, y: Number<Self>) -> Number<Self> {
        Self::sub(x, y)
    }
    fn spec_mul(x: Number<Self>, y: Number<Self>) -> Number<Self> {
        Self::mul(x, y)
    }
    fn spec_div(x: Number<Self>, y: Number<Self>) -> Number<Self> {
        Self::div(x, y)
    }
    fn spec_sqrt(x: Number<Self>) -> Number<Self> {
        Self::sqrt(x)
    }
    fn spec_tan(x: Number<Self>) -> Number<Self> {
        Self::tan(x)
    }
    fn spec_atan(x: Number<Self>) -> Number<Self> {
        Self::atan(x)
    }
    fn spec_ln(x: Number<Self>) -> Number<Self> {
        Self::ln(x)
    }
    fn spec_log2(x: Number<Self>) -> Number<Self> {
        Self::log2(x)
    }
    fn spec_exp(x: Number<Self>) -> Number<Self> {
        Self::exp(x)
    }
    fn spec_powf(x: Number<Self>, y: Number<Self>) -> Number<Self> {
        Self::powf(x, y)
    }
    fn spec_erf(x: Number<Self>) -> Number<Self> {
        Self::erf(x)
    }
    fn spec_erfc(x: Number<Self>) -> Number<Self> {
        Self::erfc(x)
    }
    fn spec_mul_add(x: Number<Self>, a: Number<Self>, b: Number<Self>) -> Number<Self> {
        Self::mul_add(x, a, b)
    }
}

/// The 32-bit floating-point format, with the arithmetic of the machine.
#[derive(Copy, Clone, Debug)]
struct F32;

/// The number `x` in the 32-bit format.
fn r32(x: f32) -> Number<F32> {
    Number::from_bits(x.to_bits())
}

impl Float for F32 {
    type UInt = u32;

    fn cast_u32(u: u32) -> Number<Self> {
        r32(u as f32)
    }
    fn cast_usize(u: usize) -> Number<Self> {
        r32(u as f32)
    }
    fn cast_uint(u: u32) -> Number<Self> {
        r32(u as f32)
    }
    fn add(x: Number<Self>, y: Number<Self>) -> Number<Self> {
        r32(x.v() + y.v())
    }
    fn sub(x: Number<Self>, y: Number<Self>) -> Number<Self> {
        r32(x.v() - y.v())
    }
    fn mul(x: Number<Self>, y: Number<Self>) -> Number<Self> {
        r32(x.v() * y.v())
    }
    fn div(x: Number<Self>, y: Number<Self>) -> Number<Self> {
        r32(x.v() / y.v())
    }
    fn powf(x: Number<Self>, y: Number<Self>) -> Number<Self> {
        r32(x.v().powf(y.v()))
    }
    fn sqrt(x: Number<Self>) -> Number<Self> {
        r32(x.v().sqrt())
    }
    fn tan(x: Number<Self>) -> Number<Self> {
        r32(x.v().tan())
    }
    fn atan(x: Number<Self>) -> Number<Self> {
        r32(x.v().atan())
    }
    fn ln(x: Number<Self>) -> Number<Self> {
        r32(x.v().ln())
    }
    fn log2(x: Number<Self>) -> Number<Self> {
        r32(x.v().log2())
    }
    fn exp(x: Number<Self>) -> Number<Self> {
        r32(x.v().exp())
    }
    fn erf(x: Number<Self>) -> Number<Self> {
        r32(erf(x.v() as f64) as f32)
    }
    fn erfc(x: Number<Self>) -> Number<Self> {
        r32(erfc(x.v() as f64) as f32)
    }
    fn mul_add(x: Number<Self>, a: Number<Self>, b: Number<Self>) -> Number<Self> {
        r32(x.v().mul_add(a.v(), b.v()))
    }

    // The names that the contracts of the library give to the results of the
    // operations: each stands for the operation itself.
    fn spec_cast_u32(u: u32) -> Number<Self> {
        Self::cast_u32(u)
    }
    fn spec_cast_usize(u: usize) -> Number<Self> {
        Self::cast_usize(u)
    }
    fn spec_cast_uint(u: u64) -> Number<Self> {
        Self::cast_uint(u as u32)
    }
    fn spec_add(x: Number<Self>, y: Number<Self>) -> Number<Self> {
        Self::add(x, y)
    }
    fn spec_sub(x: Number<Self>, y: Number<Self>) -> Number<Self> {
        Self::sub(x, y)
    }
    fn spec_mul(x: Number<Self>, y: Number<Self>) -> Number<Self> {
        Self::mul(x, y)
    }
    fn spec_div(x: Number<Self>, y: Number<Self>) -> Number<Self> {
        Self::div(x, y)
    }
    fn spec_sqrt(x: Number<Self>) -> Number<Self> {
        Self::sqrt(x)
    }
    fn spec_tan(x: Number<Self>) -> Number<Self> {
        Self::tan(x)
    }
    fn spec_atan(x: Number<Self>) -> Number<Self> {
        Self::atan(x)
    }
    fn spec_ln(x: Number<Self>) -> Number<Self> {
        Self::ln(x)
    }
    fn spec_log2(x: Number<Self>) -> Number<Self> {
        Self::log2(x)
    }
    fn spec_exp(x: Number<Self>) -> Number<Self> {
        Self::exp(x)
    }
    fn spec_powf(x: Number<Self>, y: Number<Self>) -> Number<Self> {
        Self::powf(x, y)
    }
    fn spec_erf(x: Number<Self>) -> Number<Self> {
        Self::erf(x)
    }
    fn spec_erfc(x: Number<Self>) -> Number<Self> {
        Self::erfc(x)
    }
    fn spec_mul_add(x: Number<Self>, a: Number<Self>, b: Number<Self>) -> Number<Self> {
        Self::mul_add(x, a, b)
    }
}

/// A generator that hands out the words it was given, in turn: the low half
/// of each to `next_u32`, the whole to `next_u64`.
struct Script {
    words: Vec<u64>,
    next: usize,
}

impl Script {
    fn new(words: &[u64]) -> Self {
        Script { words: words.to_vec(), next: 0 }
    }
}

impl RngCore for Script {
    fn next_u32(&mut self) -> u32 {
        self.next_u64() as u32
    }
    fn next_u64(&mut self) -> u64 {
        let w = self.words[self.next];
        self.next += 1;
        w
    }
    fn fill_bytes(&mut self, dest: &mut [u8]) {
        for b in dest.iter_mut() {
            *b = self.next_u64() as u8;
        }
    }
    fn try_fill_bytes(&mut self, dest: &mut [u8]) -> Result<(), Error> {
        self.fill_bytes(dest);
        Ok(())
    }
}

fn test_rng() -> impl RngCore {
    rand_pcg::Lcg128Xsl64::new(0xcafef00dd15ea5e5, 0xa02bdbf7bb3c0a7ac28fa16a64abf96)
}

/// `exp(-x)`.
struct Decay;

impl UnivariateFn<F64> for Decay {
    fn eval(&self, x: Number<F64>) -> Number<F64> {
        r64((-x.v()).exp())
    }

    fn test(&self, x: Number<F64>, a: Number<F64>, b: Number<F64>) -> bool {
        wedge_test(self, x, a, b)
    }

    fn spec_eval(&self, x: Number<F64>) -> Number<F64> {
        self.eval(x)
    }
}

/// Derivative of `exp(-x)`.
struct DecaySlope;

impl UnivariateFn<F64> for DecaySlope {
    fn eval(&self, x: Number<F64>) -> Number<F64> {
        r64(-(-x.v()).exp())
    }

    fn test(&self, x: Number<F64>, a: Number<F64>, b: Number<F64>) -> bool {
        wedge_test(self, x, a, b)
    }

    fn spec_eval(&self, x: Number<F64>) -> Number<F64> {
        self.eval(x)
    }
}

/// `exp(-(x - c)^2 / 2)`.
#[derive(Copy, Clone)]
struct Bell(f64);

impl UnivariateFn<F64> for Bell {
    fn eval(&self, x: Number<F64>) -> Number<F64> {
        let d = x.v() - self.0;
        r64((-0.5 * d * d).exp())
    }

    fn test(&self, x: Number<F64>, a: Number<F64>, b: Number<F64>) -> bool {
        wedge_test(self, x, a, b)
    }

    fn spec_eval(&self, x: Number<F64>) -> Number<F64> {
        self.eval(x)
    }
}

/// Derivative of `exp(-(x - c)^2 / 2)`.
struct BellSlope(f64);

impl UnivariateFn<F64> for BellSlope {
    fn eval(&self, x: Number<F64>) -> Number<F64> {
        let d = x.v() - self.0;
        r64(-d * (-0.5 * d * d).exp())
    }

    fn test(&self, x: Number<F64>, a: Number<F64>, b: Number<F64>) -> bool {
        wedge_test(self, x, a, b)
    }

    fn spec_eval(&self, x: Number<F64>) -> Number<F64> {
        self.eval(x)
    }
}

/// `exp(-(x - c)^2 / 2)` in 32 bits.
#[derive(Copy, Clone)]
struct Bell32(f32);

impl UnivariateFn<F32> for Bell32 {
    fn eval(&self, x: Number<F32>) -> Number<F32> {
        let d = x.v() - self.0;
        r32((-0.5 * d * d).exp())
    }

    fn test(&self, x: Number<F32>, a: Number<F32>, b: Number<F32>) -> bool {
        wedge_test(self, x, a, b)
    }

    fn spec_eval(&self, x: Number<F32>) -> Number<F32> {
        self.eval(x)
    }
}

/// Derivative of `exp(-(x - c)^2 / 2)` in 32 bits.
struct BellSlope32(f32);

impl UnivariateFn<F32> for BellSlope32 {
    fn eval(&self, x: Number<F32>) -> Number<F32> {
        let d = x.v() - self.0;
        r32(-d * (-0.5 * d * d).exp())
    }

    fn test(&self, x: Number<F32>, a: Number<F32>, b: Number<F32>) -> bool {
        wedge_test(self, x, a, b)
    }

    fn spec_eval(&self, x: Number<F32>) -> Number<F32> {
        self.eval(x)
    }
}

/// The constant one.
struct Flat;

impl UnivariateFn<F64> for Flat {
    fn eval(&self, _x: Number<F64>) -> Number<F64> {
        r64(1.0)
    }

    fn test(&self, x: Number<F64>, a: Number<F64>, b: Number<F64>) -> bool {
        wedge_test(self, x, a, b)
    }

    fn spec_eval(&self, x: Number<F64>) -> Number<F64> {
        self.eval(x)
    }
}

/// The identity.
struct Ramp;

impl UnivariateFn<F64> for Ramp {
    fn eval(&self, x: Number<F64>) -> Number<F64> {
        x
    }

    fn test(&self, x: Number<F64>, a: Number<F64>, b: Number<F64>) -> bool {
        wedge_test(self, x, a, b)
    }

    fn spec_eval(&self, x: Number<F64>) -> Number<F64> {
        self.eval(x)
    }
}

/// The constant zero.
struct Nought;

impl UnivariateFn<F64> for Nought {
    fn eval(&self, _x: Number<F64>) -> Number<F64> {
        r64(0.0)
    }

    fn test(&self, x: Number<F64>, a: Number<F64>, b: Number<F64>) -> bool {
        wedge_test(self, x, a, b)
    }

    fn spec_eval(&self, x: Number<F64>) -> Number<F64> {
        self.eval(x)
    }
}

/// A function that is not a number anywhere.
struct Undefined;

impl UnivariateFn<F64> for Undefined {
    fn eval(&self, _x: Number<F64>) -> Number<F64> {
        r64(f64::NAN)
    }

    fn test(&self, x: Number<F64>, a: Number<F64>, b: Number<F64>) -> bool {
        wedge_test(self, x, a, b)
    }

    fn spec_eval(&self, x: Number<F64>) -> Number<F64> {
        self.eval(x)
    }
}

/// An envelope that accepts every draw and returns the same number.
struct Always(f64);

impl Envelope<F64> for Always {
    fn try_sample<R: RngCore + ?Sized>(&self, _rng: &mut R) -> Option<Number<F64>> {
        Some(r64(self.0))
    }
}

/// An envelope that rejects every draw.
struct Never;

impl Envelope<F64> for Never {
    fn try_sample<R: RngCore + ?Sized>(&self, _rng: &mut R) -> Option<Number<F64>> {
        None
    }
}

fn nodes<P: Partition>(x: &NodeArray<P, F64>) -> Vec<f64> {
    (0..=P::size()).map(|i| x.get(i).v()).collect()
}

fn values<P: Partition>(y: &IntervalArray<P, F64>) -> Vec<f64> {
    (0..P::size()).map(|i| y.get(i).v()).collect()
}

fn tabulate<P: Partition, F: UnivariateFn<F64>, DF: UnivariateFn<F64>>(
    f: &F,
    df: &DF,
    x0: f64,
    x1: f64,
    extrema: &[Number<F64>],
    tolerance: f64,
) -> InitTable<P, F64> {
    let init = midpoint_prepartition::<P, F64, F>(f, r64(x0), r64(x1), 0);
    match newton_tabulation(f, df, &init, extrema, r64(tolerance), r64(1.0), 50) {
        Ok(table) => table,
        Err(_) => panic!("the tabulation did not converge"),
    }
}

/// Total area of the rectangles of a table.
fn total_area<P: Partition>(table: &InitTable<P, F64>) -> f64 {
    (0..P::size())
        .map(|i| (table.x.get(i + 1).v() - table.x.get(i).v()) * table.ysup.get(i).v())
        .sum()
}

/// A table over `[0, 16]` with nodes at the integers, supremum one and the
/// given infimum in each cell.
fn unit_table(yinf: &[f64]) -> InitTable<P16, F64> {
    let mut table: InitTable<P16, F64> = InitTable::default();
    for i in 0..=16 {
        table.x.set(i, r64(i as f64));
    }
    for i in 0..16 {
        table.ysup.set(i, r64(1.0));
        table.yinf.set(i, r64(yinf[i]));
    }
    table
}

/// Patterns of every kind of number: zeros, subnormal and normal numbers,
/// infinities and NaNs of either sign, and some at random.
fn patterns64() -> Vec<u64> {
    let magnitudes = [
        0,
        1,
        0x000f_ffff_ffff_ffff,
        0x0010_0000_0000_0000,
        0x3fe0_0000_0000_0000,
        0x3ff0_0000_0000_0000,
        0x3ff0_0000_0000_0001,
        0x4000_0000_0000_0000,
        0x4320_0000_0000_0000,
        0x7fef_ffff_ffff_ffff,
        0x7ff0_0000_0000_0000,
        0x7ff0_0000_0000_0001,
        0x7ff8_0000_0000_0000,
        0x7fff_ffff_ffff_ffff,
    ];
    let mut patterns = Vec::new();
    for m in magnitudes {
        patterns.push(m);
        patterns.push(m | (1 << 63));
    }
    let mut rng = test_rng();
    for _ in 0..200 {
        patterns.push(rng.next_u64());
    }
    patterns
}

fn patterns32() -> Vec<u32> {
    let magnitudes = [
        0,
        1,
        0x007f_ffff,
        0x0080_0000,
        0x3f00_0000,
        0x3f80_0000,
        0x3f80_0001,
        0x4000_0000,
        0x4a80_0000,
        0x7f7f_ffff,
        0x7f80_0000,
        0x7f80_0001,
        0x7fc0_0000,
        0x7fff_ffff,
    ];
    let mut patterns = Vec::new();
    for m in magnitudes {
        patterns.push(m);
        patterns.push(m | (1 << 31));
    }
    let mut rng = test_rng();
    for _ in 0..200 {
        patterns.push(rng.next_u32());
    }
    patterns
}

#[test]
fn constants_are_those_of_the_formats() {
    assert_eq!(Number::<F64>::zero().to_bits(), 0f64.to_bits());
    assert_eq!(Number::<F64>::one().to_bits(), 1f64.to_bits());
    assert_eq!(Number::<F64>::two().to_bits(), 2f64.to_bits());
    assert_eq!(Number::<F64>::one_half().to_bits(), 0.5f64.to_bits());
    assert_eq!(Number::<F64>::infinity().to_bits(), f64::INFINITY.to_bits());
    assert_eq!(Number::<F64>::pi().to_bits(), std::f64::consts::PI.to_bits());
    assert_eq!(Number::<F64>::from_patterns(7, 9).to_bits(), 9);
    assert_eq!(Number::<F32>::zero().to_bits(), 0f32.to_bits());
    assert_eq!(Number::<F32>::one().to_bits(), 1f32.to_bits());
    assert_eq!(Number::<F32>::two().to_bits(), 2f32.to_bits());
    assert_eq!(Number::<F32>::one_half().to_bits(), 0.5f32.to_bits());
    assert_eq!(Number::<F32>::infinity().to_bits(), f32::INFINITY.to_bits());
    assert_eq!(Number::<F32>::pi().to_bits(), std::f32::consts::PI.to_bits());
    assert_eq!(Number::<F32>::from_patterns(7, 9).to_bits(), 7);
    assert_eq!(<u32 as UInt>::select(7, 9), 7);
    assert_eq!(<u64 as UInt>::select(7, 9), 9);
}

#[test]
fn numbers_are_read_as_the_machine_reads_them() {
    for a in patterns64() {
        let (x, fx) = (Number::<F64>::from_bits(a), f64::from_bits(a));
        assert_eq!(x.to_bits(), a);
        assert_eq!(x.is_nan(), fx.is_nan());
        assert_eq!(x.neg().to_bits(), (-fx).to_bits());
        assert_eq!(x.abs().to_bits(), fx.abs().to_bits());
        for b in patterns64() {
            let (y, fy) = (Number::<F64>::from_bits(b), f64::from_bits(b));
            assert_eq!(x.lt(y), fx < fy);
            assert_eq!(x.le(y), fx <= fy);
            assert_eq!(x.gt(y), fx > fy);
            assert_eq!(x.ge(y), fx >= fy);
            // The machine may return either of two numbers that compare
            // equal, and any NaN for two of them.
            if fx != fy && !(fx.is_nan() && fy.is_nan()) {
                assert_eq!(x.min(y).to_bits(), fx.min(fy).to_bits());
                assert_eq!(x.max(y).to_bits(), fx.max(fy).to_bits());
            } else {
                assert!(x.min(y).to_bits() == a || x.min(y).to_bits() == b);
                assert!(x.max(y).to_bits() == a || x.max(y).to_bits() == b);
                assert_eq!(x.min(y).is_nan(), fx.min(fy).is_nan());
                assert_eq!(x.max(y).is_nan(), fx.max(fy).is_nan());
            }
        }
    }
    for a in patterns32() {
        let (x, fx) = (Number::<F32>::from_bits(a), f32::from_bits(a));
        assert_eq!(x.to_bits(), a);
        assert_eq!(x.is_nan(), fx.is_nan());
        assert_eq!(x.neg().to_bits(), (-fx).to_bits());
        assert_eq!(x.abs().to_bits(), fx.abs().to_bits());
        for b in patterns32() {
            let (y, fy) = (Number::<F32>::from_bits(b), f32::from_bits(b));
            assert_eq!(x.lt(y), fx < fy);
            assert_eq!(x.le(y), fx <= fy);
            assert_eq!(x.gt(y), fx > fy);
            assert_eq!(x.ge(y), fx >= fy);
            if fx != fy && !(fx.is_nan() && fy.is_nan()) {
                assert_eq!(x.min(y).to_bits(), fx.min(fy).to_bits());
                assert_eq!(x.max(y).to_bits(), fx.max(fy).to_bits());
            } else {
                assert!(x.min(y).to_bits() == a || x.min(y).to_bits() == b);
                assert!(x.max(y).to_bits() == a || x.max(y).to_bits() == b);
                assert_eq!(x.min(y).is_nan(), fx.min(fy).is_nan());
                assert_eq!(x.max(y).is_nan(), fx.max(fy).is_nan());
            }
        }
    }
}

#[test]
fn numbers_are_rounded_as_the_machine_rounds_them() {
    let mut patterns = patterns64();
    // Each binade around the integers, with the numbers midway between them.
    for exponent in 1015u64..1095 {
        for fraction in [0, 1, 1 << 51, (1 << 51) + 1, (1 << 52) - 1, 0x000a_aaaa_aaaa_aaaa] {
            patterns.push((exponent << 52) | fraction);
        }
        for places in 0..52 {
            patterns.push((exponent << 52) | (1 << places));
            patterns.push((exponent << 52) | (3 << places) & ((1 << 52) - 1));
            patterns.push((exponent << 52) | (((1 << 52) - 1) & !((1 << places) - 1)));
        }
    }
    for a in patterns {
        let (x, fx) = (Number::<F64>::from_bits(a), f64::from_bits(a));
        assert_eq!(x.round_as_uint(), fx.round() as u64);
    }
    let mut patterns = patterns32();
    for exponent in 120u32..165 {
        for fraction in [0, 1, 1 << 22, (1 << 22) + 1, (1 << 23) - 1, 0x002a_aaaa] {
            patterns.push((exponent << 23) | fraction);
        }
        for places in 0..23 {
            patterns.push((exponent << 23) | (1 << places));
            patterns.push((exponent << 23) | (3 << places) & ((1 << 23) - 1));
            patterns.push((exponent << 23) | (((1 << 23) - 1) & !((1 << places) - 1)));
        }
    }
    for a in patterns {
        let (x, fx) = (Number::<F32>::from_bits(a), f32::from_bits(a));
        assert_eq!(x.round_as_uint(), fx.round() as u32);
    }
    let midway = [(0.49999999999999994, 0), (0.5, 1), (1.5, 2), (2.5, 3), (-0.5, 0)];
    for (x, u) in midway {
        assert_eq!(r64(x).round_as_uint(), u);
    }
    assert_eq!(r64(18446744073709549568.0).round_as_uint(), 0xffff_ffff_ffff_f800);
    assert_eq!(r64(18446744073709551616.0).round_as_uint(), u64::MAX);
    assert_eq!(r32(4294967040.0).round_as_uint(), 0xffff_ff00);
    assert_eq!(r32(4294967296.0).round_as_uint(), u32::MAX);
    let mut rng = test_rng();
    for _ in 0..1_000_000 {
        let a = rng.next_u64();
        assert_eq!(Number::<F64>::from_bits(a).round_as_uint(), f64::from_bits(a).round() as u64);
        let a = rng.next_u32();
        assert_eq!(Number::<F32>::from_bits(a).round_as_uint(), f32::from_bits(a).round() as u32);
    }
}

#[test]
fn numerators_give_exact_numbers() {
    let scale = 2f64.powi(-53);
    for k in [0u64, 1, 2, 3, 1 << 26, (1 << 52) - 1, 1 << 52, (1 << 52) + 1, (1 << 53) - 1] {
        assert_eq!(Number::<F64>::from_numerator(k).to_bits(), (k as f64 * scale).to_bits());
    }
    let scale = 2f32.powi(-24);
    for k in [0u32, 1, 2, 3, 1 << 12, (1 << 23) - 1, 1 << 23, (1 << 23) + 1, (1 << 24) - 1] {
        assert_eq!(Number::<F32>::from_numerator(k).to_bits(), (k as f32 * scale).to_bits());
    }
    let mut rng = test_rng();
    for _ in 0..100_000 {
        let k = rng.next_u64() >> 11;
        assert_eq!(Number::<F64>::from_numerator(k).v(), k as f64 * 2f64.powi(-53));
        let k = rng.next_u32() >> 8;
        assert_eq!(Number::<F32>::from_numerator(k).v(), k as f32 * 2f32.powi(-24));
        // Small numerators too.
        let k = rng.next_u64() >> (11 + (rng.next_u32() % 53));
        assert_eq!(Number::<F64>::from_numerator(k).v(), k as f64 * 2f64.powi(-53));
    }
}

#[test]
fn a_cell_keeps_its_rectangle_from_a_threshold_on() {
    let dx = r64(3.0);
    // At 2^51 fractions under the infimum one bit of the significand is lost.
    let (wedge_switch, alpha) = rectangle_coefficients(r64(2f64.powi(51)), dx);
    assert_eq!((wedge_switch, alpha.v()), (1 << 51, 3.0 * 2f64.powi(-51)));
    let (wedge_switch, alpha) = rectangle_coefficients(r64(2f64.powi(51) + 0.5), dx);
    assert_eq!((wedge_switch, alpha.v()), ((1 << 51) + 1, 3.0 / (2f64.powi(51) + 0.5)));
    let (wedge_switch, alpha) = rectangle_coefficients(r64(f64::INFINITY), dx);
    assert_eq!((wedge_switch, alpha.v()), (u64::MAX, 0.0));
    for w in [2f64.powi(51) - 0.25, 1.0, 0.0, -0.0, -2f64.powi(52), f64::NAN, -f64::INFINITY] {
        let (wedge_switch, alpha) = rectangle_coefficients(r64(w), dx);
        assert_eq!((wedge_switch, alpha.to_bits()), (0, 0));
    }
    let dx = r32(3.0);
    let (wedge_switch, alpha) = rectangle_coefficients(r32(2f32.powi(22)), dx);
    assert_eq!((wedge_switch, alpha.v()), (1 << 22, 3.0 * 2f32.powi(-22)));
    for w in [2f32.powi(22) - 0.25, 1.0, 0.0, -2f32.powi(23), f32::NAN] {
        let (wedge_switch, alpha) = rectangle_coefficients(r32(w), dx);
        assert_eq!((wedge_switch, alpha.to_bits()), (0, 0));
    }
}

/// A function of no regularity, with values of any sign and size.
struct Wild;

impl UnivariateFn<F64> for Wild {
    fn eval(&self, x: Number<F64>) -> Number<F64> {
        let bits = x.to_bits().wrapping_mul(0x9e37_79b9_7f4a_7c15);
        r64(((bits >> 40) as f64 - 4e6) * 1e-3)
    }

    fn test(&self, x: Number<F64>, a: Number<F64>, b: Number<F64>) -> bool {
        wedge_test(self, x, a, b)
    }

    fn spec_eval(&self, x: Number<F64>) -> Number<F64> {
        self.eval(x)
    }
}

#[test]
fn nodes_in_order_stay_in_order() {
    let mut converged = 0;
    for (x0, x1) in [(0.0, 3.0), (3.0, 0.0), (-5.0, 5.0), (7.0, -2.0)] {
        for (relaxation, tolerance, max_iter) in
            [(1.0, 1e-9, 50), (1.9, 1e-6, 200), (0.3, 1e-3, 300), (25.0, 1e-2, 50), (1.0, 1e30, 5)]
        {
            // A derivative that has nothing to do with the function drives
            // the nodes against their neighbours.
            let init = midpoint_prepartition::<P16, F64, _>(&Bell(1.0), r64(x0), r64(x1), 0);
            for wild in [false, true] {
                let result = if wild {
                    newton_tabulation(
                        &Wild,
                        &Wild,
                        &init,
                        &[r64(1.0)],
                        r64(tolerance),
                        r64(relaxation),
                        max_iter,
                    )
                } else {
                    newton_tabulation(
                        &Bell(1.0),
                        &Wild,
                        &init,
                        &[r64(1.0)],
                        r64(tolerance),
                        r64(relaxation),
                        max_iter,
                    )
                };
                if let Ok(table) = result {
                    converged += 1;
                    let x = nodes(&table.x);
                    assert_eq!((x[0], x[16]), (x0, x1));
                    if x0 < x1 {
                        assert!(x.windows(2).all(|w| w[0] <= w[1]));
                    } else {
                        assert!(x.windows(2).all(|w| w[0] >= w[1]));
                    }
                }
            }
        }
    }
    assert!(converged >= 8);
}

#[test]
fn arrays_have_one_value_for_each_node_or_cell() {
    let mut x: NodeArray<P16, F64> = NodeArray::default();
    assert_eq!(x.len(), 17);
    assert!(nodes(&x).iter().all(|v| *v == 0.0));
    x.set(16, r64(2.5));
    x.set(0, r64(-1.0));
    assert_eq!(x.get(16).v(), 2.5);
    assert_eq!(x.get(0).v(), -1.0);
    assert_eq!(x.get(1).v(), 0.0);
    let mut y: IntervalArray<P256, F32> = IntervalArray::default();
    assert_eq!(y.len(), 256);
    y.set(255, r32(1.0));
    assert_eq!(y.get(255).v(), 1.0);
    assert_eq!(y.get(254).v(), 0.0);
    let x: NodeArray<P4096, F32> = NodeArray::new();
    assert_eq!(x.len(), 4097);
    let y: IntervalArray<P4096, F32> = IntervalArray::new();
    assert_eq!(y.len(), 4096);
    let table: InitTable<P128, F64> = InitTable::default();
    assert_eq!((table.x.len(), table.yinf.len(), table.ysup.len()), (129, 128, 128));
    let table: InitTable<P128, F64> = InitTable::new();
    assert_eq!((table.x.len(), table.yinf.len(), table.ysup.len()), (129, 128, 128));
}

#[test]
fn folding_with_zero_is_the_identity() {
    for c in [0.0, -0.0, 1.5, -2.25, 1e-310, f64::MAX, f64::INFINITY, f64::NEG_INFINITY] {
        assert_eq!(r64(c).bitxor(0).v().to_bits(), c.to_bits());
    }
    assert_eq!(r64(f64::NAN).bitxor(0).v().to_bits(), f64::NAN.to_bits());
    for c in [0.0f32, -0.0, 1.5, -2.25, 1e-40, f32::MAX, f32::INFINITY] {
        assert_eq!(r32(c).bitxor(0).v().to_bits(), c.to_bits());
    }
}

#[test]
fn folding_with_the_sign_mask_negates() {
    for c in [0.0, -0.0, 1.5, -2.25, 1e-310, f64::MAX, f64::INFINITY, f64::NEG_INFINITY] {
        assert_eq!(r64(c).bitxor(1 << 63).v().to_bits(), (-c).to_bits());
        assert_eq!(r64(c).bitxor(1 << 63).bitxor(1 << 63).v().to_bits(), c.to_bits());
    }
    for c in [0.0f32, -0.0, 1.5, -2.25, 1e-40, f32::MAX, f32::INFINITY] {
        assert_eq!(r32(c).bitxor(1 << 31).v().to_bits(), (-c).to_bits());
    }
    // The pattern of a NaN has its sign toggled like any other.
    assert_eq!(r64(f64::NAN).bitxor(1 << 63).v().to_bits(), f64::NAN.to_bits() ^ (1 << 63));
}

#[test]
fn uniform_numbers_stay_below_one() {
    let mut rng = Script::new(&[u64::MAX, u64::MAX, 0, 0, 1 << 63, 1 << 31, 0x800, 0x100]);
    // The largest word gives the largest number below one.
    assert_eq!(Number::<F64>::gen(&mut rng).v(), 1.0 - 2f64.powi(-53));
    assert_eq!(Number::<F32>::gen(&mut rng).v(), 1.0 - 2f32.powi(-24));
    assert_eq!(Number::<F64>::gen(&mut rng).v(), 0.0);
    assert_eq!(Number::<F32>::gen(&mut rng).v(), 0.0);
    assert_eq!(Number::<F64>::gen(&mut rng).v(), 0.5);
    assert_eq!(Number::<F32>::gen(&mut rng).v(), 0.5);
    assert_eq!(Number::<F64>::gen(&mut rng).v(), 2f64.powi(-53));
    assert_eq!(Number::<F32>::gen(&mut rng).v(), 2f32.powi(-24));
    let mut rng = test_rng();
    for _ in 0..100_000 {
        let u = Number::<F64>::gen(&mut rng).v();
        assert!(0.0 <= u && u < 1.0);
        let u = Number::<F32>::gen(&mut rng).v();
        assert!(0.0 <= u && u < 1.0);
    }
}

#[test]
fn prepartition_of_a_constant_function_is_regular() {
    let x = midpoint_prepartition::<P16, F64, Flat>(&Flat, r64(0.0), r64(1.0), 0);
    for i in 0..=16 {
        assert_eq!(x.get(i).v(), i as f64 / 16.0);
    }
    // A finer quadrature gives the same partition.
    let x = midpoint_prepartition::<P16, F64, Flat>(&Flat, r64(0.0), r64(1.0), 64);
    for i in 0..=16 {
        assert_eq!(x.get(i).v(), i as f64 / 16.0);
    }
    let x = midpoint_prepartition::<P256, F64, Flat>(&Flat, r64(-2.0), r64(2.0), 0);
    for i in 0..=256 {
        assert_eq!(x.get(i).v(), -2.0 + i as f64 / 64.0);
    }
}

#[test]
fn prepartition_interpolates_within_the_straddled_rectangle() {
    // Sixteen midpoint rectangles of heights 0.5, 1.5, ..., 15.5: the area up
    // to the k-th is k^2 / 2, and each of the 16 parts has the area 8.
    let x = midpoint_prepartition::<P16, F64, Ramp>(&Ramp, r64(0.0), r64(16.0), 0);
    assert_eq!(x.get(0).v(), 0.0);
    assert_eq!(x.get(1).v(), 4.0);
    assert_eq!(x.get(2).v(), 6.0 - 2.0 / 5.5);
    assert_eq!(x.get(3).v(), 7.0 - 0.5 / 6.5);
    assert_eq!(x.get(4).v(), 8.0);
    assert_eq!(x.get(9).v(), 12.0);
    assert_eq!(x.get(15).v(), 16.0 - 8.0 / 15.5);
    assert_eq!(x.get(16).v(), 16.0);
    let x = nodes(&x);
    assert!(x.windows(2).all(|w| w[0] < w[1]));
}

#[test]
fn prepartition_keeps_the_bounds_whatever_the_function() {
    let x = midpoint_prepartition::<P16, F64, Undefined>(&Undefined, r64(-3.0), r64(7.0), 5);
    assert_eq!(x.get(0).v(), -3.0);
    assert_eq!(x.get(16).v(), 7.0);
    let x = midpoint_prepartition::<P16, F64, Nought>(&Nought, r64(-3.0), r64(7.0), 0);
    assert_eq!(x.get(0).v(), -3.0);
    assert_eq!(x.get(16).v(), 7.0);
    // Bounds in descending order are kept as they are.
    let x = midpoint_prepartition::<P16, F64, Decay>(&Decay, r64(2.0), r64(-2.0), 400);
    assert_eq!(x.get(0).v(), 2.0);
    assert_eq!(x.get(16).v(), -2.0);
}

#[test]
fn tabulation_gives_rectangles_of_equal_area() {
    let table = tabulate::<P128, _, _>(&Decay, &DecaySlope, 0.0, 3.0, &[], 1e-9);
    let x = nodes(&table.x);
    let ysup = values(&table.ysup);
    let yinf = values(&table.yinf);
    assert_eq!(x[0], 0.0);
    assert_eq!(x[128], 3.0);
    assert!(x.windows(2).all(|w| w[0] < w[1]));
    let area = (x[1] - x[0]) * ysup[0];
    for i in 0..128 {
        let a = (x[i + 1] - x[i]).abs() * ysup[i];
        assert!((a - area).abs() <= 4.0 * f64::EPSILON * area);
        // The function decreases: its supremum over a cell is at the left
        // node, its infimum at the right one.
        assert!(ysup[i] >= (-x[i]).exp());
        assert!(ysup[i] <= (-x[i]).exp() * (1.0 + 2e-9));
        assert_eq!(yinf[i], (-x[i + 1]).exp());
    }
    // The integral of the function lies between the areas under the infima
    // and under the suprema.
    let integral = 1.0 - (-3f64).exp();
    let lower: f64 = (0..128).map(|i| (x[i + 1] - x[i]) * yinf[i]).sum();
    assert!(128.0 * area > integral);
    assert!(lower < integral);
    assert!(128.0 * area - lower < 0.05 * integral);
}

#[test]
fn tabulation_accounts_for_inner_extrema() {
    let table = tabulate::<P16, _, _>(&Bell(1.0), &BellSlope(1.0), 0.0, 3.0, &[r64(1.0)], 1e-9);
    let x = nodes(&table.x);
    let ysup = values(&table.ysup);
    let yinf = values(&table.yinf);
    assert!(x.windows(2).all(|w| w[0] < w[1]));
    let area = (x[1] - x[0]) * ysup[0];
    let f = |x: f64| (-0.5 * (x - 1.0) * (x - 1.0)).exp();
    let mut around_the_maximum = 0;
    for i in 0..16 {
        assert!(((x[i + 1] - x[i]) * ysup[i] - area).abs() <= 4.0 * f64::EPSILON * area);
        assert_eq!(yinf[i], f(x[i]).min(f(x[i + 1])));
        if x[i] < 1.0 && 1.0 < x[i + 1] {
            // The supremum over this cell is the maximum of the function.
            around_the_maximum += 1;
            assert!(ysup[i] >= 1.0);
            assert!(ysup[i] <= 1.0 + 2e-9);
        } else {
            assert!(ysup[i] >= f(x[i]).max(f(x[i + 1])));
            assert!(ysup[i] <= f(x[i]).max(f(x[i + 1])) * (1.0 + 2e-9));
        }
    }
    assert_eq!(around_the_maximum, 1);
}

#[test]
fn tabulation_of_a_tabulated_partition_converges_at_once() {
    let table = tabulate::<P128, _, _>(&Bell(0.0), &BellSlope(0.0), 0.0, 3.25, &[], 1e-6);
    // No iteration is allowed: the partition must be accepted as it is.
    let again = match newton_tabulation(
        &Bell(0.0),
        &BellSlope(0.0),
        &table.x,
        &[],
        r64(1e-6),
        r64(1.0),
        0,
    ) {
        Ok(again) => again,
        Err(_) => panic!("a converged partition was refused"),
    };
    assert_eq!(nodes(&again.x), nodes(&table.x));
    assert_eq!(values(&again.ysup), values(&table.ysup));
    assert_eq!(values(&again.yinf), values(&table.yinf));
}

#[test]
fn tabulation_fails_when_iterations_run_out() {
    let init = midpoint_prepartition::<P128, F64, Decay>(&Decay, r64(0.0), r64(3.0), 0);
    let result = newton_tabulation(&Decay, &DecaySlope, &init, &[], r64(1e-9), r64(1.0), 0);
    assert!(matches!(result, Err(TabulationError::ConvergenceFailure)));
    let result = newton_tabulation(&Decay, &DecaySlope, &init, &[], r64(1e-9), r64(1.0), 1);
    assert!(matches!(result, Err(TabulationError::ConvergenceFailure)));
    let result = newton_tabulation(&Decay, &DecaySlope, &init, &[], r64(1e-9), r64(1.0), 50);
    assert!(result.is_ok());
}

#[test]
fn tabulation_fails_when_areas_are_not_numbers() {
    let init = midpoint_prepartition::<P16, F64, Flat>(&Flat, r64(0.0), r64(1.0), 0);
    let result = newton_tabulation(&Undefined, &Undefined, &init, &[], r64(1e-3), r64(1.0), 50);
    assert!(matches!(result, Err(TabulationError::ConvergenceFailure)));
}

#[test]
fn tabulation_error_has_its_text() {
    assert_eq!(
        TabulationError::ConvergenceFailure.message(),
        "the solution did not convergence after the maximum number of iterations"
    );
}

#[test]
fn tridiagonal_system_is_solved() {
    // | 2    1       | |1|   | 4|
    // | 1  2.5    1  | |2| = |10|
    // |      1  2.25 | |4|   |11|
    let a = vec![r64(0.0), r64(1.0), r64(1.0)];
    let mut b = vec![r64(2.0), r64(2.5), r64(2.25)];
    let c = vec![r64(1.0), r64(1.0), r64(0.0)];
    let mut rhs = vec![r64(4.0), r64(10.0), r64(11.0)];
    let mut sol = vec![r64(0.0); 3];
    solve_tma(&a, &mut b, &c, &mut rhs, &mut sol);
    assert_eq!(sol.iter().map(|x| x.v()).collect::<Vec<_>>(), vec![1.0, 2.0, 4.0]);
    // Diagonal and right-hand side are left as the elimination made them.
    assert_eq!(b.iter().map(|x| x.v()).collect::<Vec<_>>(), vec![2.0, 2.0, 1.75]);
    assert_eq!(rhs.iter().map(|x| x.v()).collect::<Vec<_>>(), vec![4.0, 8.0, 7.0]);
    // A system of one equation.
    let mut b = vec![r64(4.0)];
    let mut rhs = vec![r64(10.0)];
    let mut sol = vec![r64(0.0)];
    solve_tma(&vec![r64(0.0)], &mut b, &vec![r64(0.0)], &mut rhs, &mut sol);
    assert_eq!(sol.iter().map(|x| x.v()).collect::<Vec<_>>(), vec![2.5]);
}

#[test]
fn table_data_follow_the_initialization_table() {
    let mut yinf = [1.0; 16];
    yinf[1] = 0.5;
    yinf[2] = 0.125;
    let table = unit_table(&yinf);
    let tail_switch = max_switch::<P16, u64>(false);
    let data = process_table(r64(0.5), &table, tail_switch);
    // The tail switch, 2^60 - 1, becomes 2^60 as a number.
    let d = data.datum(0);
    assert_eq!((d.alpha.v(), d.beta.v(), d.wedge_switch), (2f64.powi(-60), -0.5, 1 << 60));
    let d = data.datum(1);
    assert_eq!((d.alpha.v(), d.beta.v(), d.wedge_switch), (2f64.powi(-59), 0.5, 1 << 59));
    let d = data.datum(2);
    assert_eq!((d.alpha.v(), d.beta.v(), d.wedge_switch), (2f64.powi(-57), 1.5, 1 << 57));
    // The datum of the end node carries its position only.
    let d = data.datum(16);
    assert_eq!((d.alpha.v(), d.beta.v(), d.wedge_switch), (0.0, 15.5, 0));
    assert_eq!(data.scaled_xysup().v(), 2f64.powi(-60));
}

#[test]
fn alpha_is_the_width_of_the_cell_over_the_wedge_switch() {
    let table = tabulate::<P128, _, _>(&Bell(0.0), &BellSlope(0.0), 0.0, 3.25, &[], 1e-6);
    let tail_switch = compute_tail_switch(&table, r64(0.001), true);
    let data = process_table(r64(0.0), &table, tail_switch);
    let mut regular = 0;
    for i in 0..128 {
        let d = data.datum(i);
        let dx = table.x.get(i + 1).v() - table.x.get(i).v();
        assert_eq!(d.beta.v(), table.x.get(i).v());
        if d.wedge_switch == 0 {
            assert_eq!(d.alpha.to_bits(), 0);
        } else {
            regular += 1;
            assert!(d.wedge_switch >= 1 << 51);
            let w = d.wedge_switch as f64;
            assert!((d.alpha.v() * w - dx).abs() <= 4.0 * f64::EPSILON * dx);
            // The wedge switch is the share of the infimum in the supremum.
            let share = table.yinf.get(i).v() / table.ysup.get(i).v();
            assert!((w / tail_switch as f64 - share).abs() <= 4.0 * f64::EPSILON);
        }
    }
    assert!(regular > 100);
}

#[test]
fn cells_with_a_small_infimum_are_sampled_through_the_wedge() {
    // With the tail switch 2^60 and a significand of 52 bits, one bit is lost
    // where the infimum is 2^-9 of the supremum.
    let mut yinf = [1.0; 16];
    yinf[0] = 2f64.powi(-9);
    yinf[1] = 2f64.powi(-9) * (1.0 - f64::EPSILON);
    yinf[2] = 2f64.powi(-10);
    yinf[3] = 2f64.powi(-51);
    yinf[4] = 2f64.powi(-52);
    yinf[5] = 0.0;
    let table = unit_table(&yinf);
    let data = process_table(r64(0.0), &table, max_switch::<P16, u64>(false));
    let d = data.datum(0);
    assert_eq!((d.alpha.v(), d.wedge_switch), (2f64.powi(-51), 1 << 51));
    for i in 1..=5 {
        let d = data.datum(i);
        assert_eq!((d.alpha.v(), d.beta.v(), d.wedge_switch), (0.0, i as f64, 0));
    }
    let d = data.datum(6);
    assert_eq!((d.alpha.v(), d.wedge_switch), (2f64.powi(-60), 1 << 60));

    // In 32 bits, with the tail switch 2^28 and a significand of 23 bits, one
    // bit is lost where the infimum is 2^-6 of the supremum.
    let mut table: InitTable<P16, F32> = InitTable::default();
    for i in 0..=16 {
        table.x.set(i, r32(i as f32));
    }
    for i in 0..16 {
        table.ysup.set(i, r32(1.0));
        table.yinf.set(i, r32(1.0));
    }
    table.yinf.set(0, r32(2f32.powi(-6)));
    table.yinf.set(1, r32(2f32.powi(-7)));
    table.yinf.set(2, r32(2f32.powi(-22)));
    table.yinf.set(3, r32(2f32.powi(-23)));
    let data = process_table(r32(0.0), &table, max_switch::<P16, u32>(false));
    let d = data.datum(0);
    assert_eq!((d.alpha.v(), d.wedge_switch), (2f32.powi(-22), 1 << 22));
    for i in 1..=3 {
        let d = data.datum(i);
        assert_eq!((d.alpha.v(), d.wedge_switch), (0.0, 0));
    }
    let d = data.datum(4);
    assert_eq!((d.alpha.v(), d.wedge_switch), (2f32.powi(-28), 1 << 28));
}

#[test]
fn tail_switch_is_the_share_of_the_table_in_the_whole() {
    // Sixteen rectangles of area one.
    let table = unit_table(&[1.0; 16]);
    assert_eq!(compute_tail_switch(&table, r64(16.0), false), 1 << 59);
    assert_eq!(compute_tail_switch(&table, r64(16.0), true), 1 << 58);
    assert_eq!(compute_tail_switch(&table, r64(48.0), false), 1 << 58);
    assert_eq!(compute_tail_switch(&table, r64(0.0), false), 1 << 60);
    let tail_switch = compute_tail_switch(&table, r64(3.0), false);
    let max = max_switch::<P16, u64>(false) as f64;
    assert!((tail_switch as f64 / max - 16.0 / 19.0).abs() <= f64::EPSILON);
    // The same in 32 bits.
    let mut table: InitTable<P16, F32> = InitTable::default();
    for i in 0..=16 {
        table.x.set(i, r32(i as f32));
    }
    for i in 0..16 {
        table.ysup.set(i, r32(1.0));
    }
    assert_eq!(compute_tail_switch(&table, r32(16.0), false), 1 << 27);
    assert_eq!(compute_tail_switch(&table, r32(16.0), true), 1 << 26);
    let tail_switch = compute_tail_switch(&table, r32(3.0), true);
    let max = max_switch::<P16, u32>(true) as f32;
    assert!((tail_switch as f32 / max - 16.0 / 19.0).abs() <= f32::EPSILON);
}

#[test]
fn weibull_envelope_area() {
    // 0.5 x exp(-x^2) beyond 2: the area is exp(-4) / 4.
    let pdf = Bell(0.0);
    let envelope = WeibullEnvelope::new(r64(0.25), r64(2.0), r64(1.0), r64(0.0), r64(2.0), pdf);
    assert!((envelope.area().v() - 0.25 * (-4f64).exp()).abs() <= 1e-17);
    // The mirrored envelope has the same area, with the sign of the shape.
    let envelope = WeibullEnvelope::new(r64(0.25), r64(2.0), r64(-1.0), r64(0.0), r64(-2.0), pdf);
    assert!((envelope.area().v() + 0.25 * (-4f64).exp()).abs() <= 1e-17);
    // exp(-x) beyond 0: the area is 1.
    let envelope = WeibullEnvelope::new(r64(1.0), r64(1.0), r64(1.0), r64(0.0), r64(0.0), pdf);
    assert_eq!(envelope.area().v(), 1.0);
}

#[test]
fn weibull_envelope_samples_beyond_the_cut_in() {
    // The envelope 0.5 x exp(-x^2) covers exp(-x^2 / 2) nowhere beyond 2, so
    // with a function above it every draw is accepted.
    let envelope =
        WeibullEnvelope::new(r64(0.25), r64(2.0), r64(1.0), r64(0.0), r64(2.0), Flat);
    let mut rng = Script::new(&[0, u64::MAX]);
    assert_eq!(envelope.try_sample(&mut rng).map(Value::v), Some(2.0));
    let mut rng = test_rng();
    for _ in 0..10_000 {
        match envelope.try_sample(&mut rng) {
            Some(x) => assert!(x.v() >= 2.0),
            None => panic!("a draw under the function was rejected"),
        }
    }
    // With the zero function only a zero height is accepted.
    let envelope =
        WeibullEnvelope::new(r64(0.25), r64(2.0), r64(1.0), r64(0.0), r64(2.0), Nought);
    let mut rng = Script::new(&[0, u64::MAX, 0, 0]);
    assert!(envelope.try_sample(&mut rng).is_none());
    assert_eq!(envelope.try_sample(&mut rng).map(Value::v), Some(2.0));
}

#[test]
fn weibull_envelope_follows_its_density() {
    // Accepted draws of the envelope 0.5 x exp(-x^2) under the function
    // exp(-x^2) follow the normal tail beyond 2.
    struct Square;
    impl UnivariateFn<F64> for Square {
        fn eval(&self, x: Number<F64>) -> Number<F64> {
            r64((-x.v() * x.v()).exp())
        }

        fn test(&self, x: Number<F64>, a: Number<F64>, b: Number<F64>) -> bool {
            wedge_test(self, x, a, b)
        }

        fn spec_eval(&self, x: Number<F64>) -> Number<F64> {
            self.eval(x)
        }
    }
    let envelope =
        WeibullEnvelope::new(r64(0.25), r64(2.0), r64(1.0), r64(0.0), r64(2.0), Square);
    let mut rng = test_rng();
    let (mut accepted, mut drawn, mut beyond) = (0u32, 0u32, 0u32);
    while accepted < 200_000 {
        drawn += 1;
        if let Some(x) = envelope.try_sample(&mut rng) {
            accepted += 1;
            if x.v() > 2.25 {
                beyond += 1;
            }
        }
    }
    // Share of the tail of exp(-x^2) beyond 2.25 in that beyond 2.
    let expected = erfc(2.25) / erfc(2.0);
    let observed = beyond as f64 / accepted as f64;
    let sigma = (expected * (1.0 - expected) / accepted as f64).sqrt();
    assert!((observed - expected).abs() < 5.0 * sigma);
    // The acceptance rate is the area under the function over that under the
    // envelope.
    let expected = 0.5 * std::f64::consts::PI.sqrt() * erfc(2.0) / envelope.area().v();
    let observed = accepted as f64 / drawn as f64;
    let sigma = (expected * (1.0 - expected) / drawn as f64).sqrt();
    assert!((observed - expected).abs() < 5.0 * sigma);
}

#[test]
fn a_word_in_the_rectangle_gives_the_point_it_selects() {
    let table = tabulate::<P16, _, _>(&Decay, &DecaySlope, 0.0, 3.0, &[], 1e-9);
    let dist = DistAny::new(Decay, &table);
    let mut rng = Script::new(&[]);
    for i in 0..16u64 {
        // The fraction zero selects the left node of the cell.
        let left = table.x.get(i as usize).v();
        assert_eq!(dist.attempt(i << 60, &mut rng).map(Value::v), Some(left));
        // The wedge switch selects the right node, up to rounding.
        let d = dist.data().datum(i as usize);
        assert!(d.wedge_switch > 0);
        let x = match dist.attempt((i << 60) | d.wedge_switch, &mut rng) {
            Some(x) => x.v(),
            None => panic!("a word in the rectangle was rejected"),
        };
        let right = table.x.get(i as usize + 1).v();
        assert!((x - right).abs() <= 4.0 * f64::EPSILON * right);
    }
}

#[test]
fn a_word_in_the_wedge_is_tested_against_the_function() {
    let table = tabulate::<P16, _, _>(&Decay, &DecaySlope, 0.0, 3.0, &[], 1e-9);
    let dist = DistAny::new(Decay, &table);
    for i in 0..16u64 {
        let d = dist.data().datum(i as usize);
        let left = table.x.get(i as usize).v();
        let right = table.x.get(i as usize + 1).v();
        // Just above the infimum, at the left node, where the function is at
        // its supremum: accepted.
        let mut rng = Script::new(&[0]);
        let word = (i << 60) | (d.wedge_switch + 1);
        assert_eq!(dist.attempt(word, &mut rng).map(Value::v), Some(left));
        // Half way up the wedge, next to the right node, where the function
        // is at its infimum: rejected.
        let mut rng = Script::new(&[u64::MAX]);
        let word = (i << 60) | ((d.wedge_switch + (1 << 60)) / 2);
        assert!(dist.attempt(word, &mut rng).is_none());
        // At the top of the rectangle, in the middle of the cell: rejected.
        let mut rng = Script::new(&[1 << 63]);
        let word = (i << 60) | ((1 << 60) - 1);
        assert!(dist.attempt(word, &mut rng).is_none());
        // Half way up the wedge at a quarter of the cell: accepted, for the
        // function is convex.
        let mut rng = Script::new(&[1 << 62]);
        let word = (i << 60) | ((d.wedge_switch + (1 << 60)) / 2);
        assert_eq!(dist.attempt(word, &mut rng).map(Value::v), Some(left + 0.25 * (right - left)));
    }
}

#[test]
fn try_sample_reads_one_word_for_a_rectangle() {
    let table = tabulate::<P16, _, _>(&Decay, &DecaySlope, 0.0, 3.0, &[], 1e-9);
    let dist = DistAny::new(Decay, &table);
    // One word for the sample in a rectangle.
    let mut rng = Script::new(&[5 << 60]);
    assert_eq!(dist.try_sample(&mut rng).map(Value::v), Some(table.x.get(5).v()));
    // A second word for the position in the wedge.
    let mut rng = Script::new(&[(5 << 60) | ((1 << 60) - 1), 1 << 63]);
    assert!(dist.try_sample(&mut rng).is_none());
    assert_eq!(rng.next, 2);
}

#[test]
fn symmetric_samplers_reflect_about_the_origin() {
    let x0 = 1.5;
    let table = tabulate::<P16, _, _>(&Bell(x0), &BellSlope(x0), x0, x0 + 3.0, &[], 1e-9);
    let dist = DistSymmetric::new(r64(x0), Bell(x0), &table);
    assert_eq!(dist.origin().v(), x0);
    let central_table = tabulate::<P16, _, _>(&Bell(0.0), &BellSlope(0.0), 0.0, 3.0, &[], 1e-9);
    let central = DistCentral::new(Bell(0.0), &central_table);
    let mut rng = Script::new(&[]);
    for i in 0..16u64 {
        let wedge_switch = dist.data().datum(i as usize).wedge_switch.min(
            central.data().datum(i as usize).wedge_switch,
        );
        for fraction in [0, 1, 1 << 20, wedge_switch] {
            let word = (i << 59) | fraction;
            let above = match dist.attempt(word, &mut rng) {
                Some(x) => x.v(),
                None => panic!("a word in the rectangle was rejected"),
            };
            let below = match dist.attempt(word | (1 << 63), &mut rng) {
                Some(x) => x.v(),
                None => panic!("a word in the rectangle was rejected"),
            };
            assert!(above >= x0 && below <= x0);
            assert!(((above - x0) - (x0 - below)).abs() <= 4.0 * f64::EPSILON * x0);
            let above = match central.attempt(word, &mut rng) {
                Some(x) => x.v(),
                None => panic!("a word in the rectangle was rejected"),
            };
            let below = match central.attempt(word | (1 << 63), &mut rng) {
                Some(x) => x.v(),
                None => panic!("a word in the rectangle was rejected"),
            };
            assert!(above >= 0.0);
            assert_eq!(below.to_bits(), (-above).to_bits());
        }
        let left = table.x.get(i as usize).v();
        assert_eq!(dist.attempt(i << 59, &mut rng).map(Value::v), Some(left));
        let left = central_table.x.get(i as usize).v();
        assert_eq!(central.attempt(i << 59, &mut rng).map(Value::v), Some(left));
    }
    // In the wedge too: the same words give mirrored samples.
    for i in 0..16u64 {
        let word = (i << 59) | (dist.data().datum(i as usize).wedge_switch + 1);
        let mut rng = Script::new(&[1 << 60, 1 << 60]);
        let above = dist.attempt(word, &mut rng);
        let below = dist.attempt(word | (1 << 63), &mut rng);
        match (above, below) {
            (Some(a), Some(b)) => {
                assert!(a.v() > x0 && b.v() < x0);
                assert!(((a.v() - x0) - (x0 - b.v())).abs() <= 4.0 * f64::EPSILON * x0);
            }
            _ => panic!("a point under the function was rejected"),
        }
    }
}

#[test]
fn the_tail_is_sampled_beyond_the_tail_switch() {
    let table = tabulate::<P16, _, _>(&Bell(0.0), &BellSlope(0.0), 0.0, 3.0, &[], 1e-9);
    let area = total_area(&table);
    let dist = DistCentralTailed::new(Bell(0.0), &table, Always(7.0), r64(area));
    // Table and tail have the same area: the tail switch is in the middle.
    assert_eq!(dist.tail_switch(), 1 << 58);
    let mut rng = Script::new(&[]);
    for i in 0..16u64 {
        let wedge_switch = dist.data().datum(i as usize).wedge_switch;
        assert!(wedge_switch <= 1 << 58);
        // Beyond the tail switch the envelope is sampled and its sample
        // folded with the sign.
        for fraction in [(1 << 58) + 1, (1 << 59) - 1] {
            let word = (i << 59) | fraction;
            assert!(matches!(dist.attempt(word, &mut rng), Attempt::Accepted(x) if x.v() == 7.0));
            let word = word | (1 << 63);
            assert!(matches!(dist.attempt(word, &mut rng), Attempt::Accepted(x) if x.v() == -7.0));
        }
        // Up to the wedge switch the rectangle is sampled.
        let left = table.x.get(i as usize);
        let accepted = dist.attempt(i << 59, &mut rng);
        assert!(matches!(accepted, Attempt::Accepted(x) if x.v() == left.v()));
    }
    // At the tail switch itself the wedge is sampled, at its very top.
    let mut rng = Script::new(&[1 << 63]);
    assert!(matches!(dist.attempt((15 << 59) | (1 << 58), &mut rng), Attempt::Rejected));
    assert_eq!(rng.next, 1);
    // Just above the wedge switch the wedge is sampled near its bottom.
    let word = (15 << 59) | (dist.data().datum(15).wedge_switch + (1 << 40));
    let mut rng = Script::new(&[0]);
    assert!(
        matches!(dist.attempt(word, &mut rng), Attempt::Accepted(x) if x.v() == table.x.get(15).v())
    );
    let mut rng = Script::new(&[0]);
    let left = -table.x.get(15).v();
    let accepted = dist.attempt(word | (1 << 63), &mut rng);
    assert!(matches!(accepted, Attempt::Accepted(x) if x.v() == left));
    assert_eq!(dist.sample_tail(0, &mut rng).map(Value::v), Some(7.0));
    assert_eq!(dist.sample_tail(1 << 63, &mut rng).map(Value::v), Some(-7.0));
}

#[test]
fn a_rejected_tail_draw_hands_back_the_sign() {
    let table = tabulate::<P16, _, _>(&Bell(0.0), &BellSlope(0.0), 0.0, 3.0, &[], 1e-9);
    let area = total_area(&table);
    let mut rng = Script::new(&[]);
    let dist = DistCentralTailed::new(Bell(0.0), &table, Never, r64(area));
    let word = (3 << 59) | ((1 << 59) - 1);
    assert!(matches!(dist.attempt(word, &mut rng), Attempt::TailRejected(0)));
    let word = word | (1 << 63);
    assert!(matches!(dist.attempt(word, &mut rng), Attempt::TailRejected(s) if s == 1 << 63));
    assert!(dist.sample_tail(1 << 63, &mut rng).is_none());

    let x0 = -2.0;
    let table = tabulate::<P16, _, _>(&Bell(x0), &BellSlope(x0), x0, x0 + 3.0, &[], 1e-9);
    let area = total_area(&table);
    let dist = DistSymmetricTailed::new(r64(x0), Bell(x0), &table, Never, r64(area));
    assert_eq!(dist.tail_switch(), 1 << 58);
    let word = (3 << 59) | ((1 << 59) - 1);
    assert!(matches!(dist.attempt(word, &mut rng), Attempt::TailRejected(0)));
    let word = word | (1 << 63);
    assert!(matches!(dist.attempt(word, &mut rng), Attempt::TailRejected(s) if s == 1 << 63));
    // A sample of the envelope is reflected about the origin of symmetry.
    let dist = DistSymmetricTailed::new(r64(x0), Bell(x0), &table, Always(5.0), r64(area));
    assert_eq!(dist.origin().v(), x0);
    let word = (3 << 59) | ((1 << 59) - 1);
    assert!(matches!(dist.attempt(word, &mut rng), Attempt::Accepted(x) if x.v() == 5.0));
    let word = word | (1 << 63);
    assert!(matches!(dist.attempt(word, &mut rng), Attempt::Accepted(x) if x.v() == -9.0));

    let table = tabulate::<P16, _, _>(&Decay, &DecaySlope, 0.0, 3.0, &[], 1e-9);
    let area = total_area(&table);
    let dist = DistAnyTailed::new(Decay, &table, Never, r64(area));
    assert_eq!(dist.tail_switch(), 1 << 59);
    assert!(matches!(dist.attempt(u64::MAX, &mut rng), Attempt::TailRejected(0)));
    assert!(dist.sample_tail(&mut rng).is_none());
    let dist = DistAnyTailed::new(Decay, &table, Always(4.0), r64(area));
    assert!(matches!(dist.attempt(u64::MAX, &mut rng), Attempt::Accepted(x) if x.v() == 4.0));
    let left = table.x.get(3).v();
    assert!(matches!(dist.attempt(3 << 60, &mut rng), Attempt::Accepted(x) if x.v() == left));
    assert_eq!(dist.sample_tail(&mut rng).map(Value::v), Some(4.0));
}

#[test]
fn samplers_in_32_bits_read_32_bit_words() {
    let init = midpoint_prepartition::<P128, F32, Bell32>(&Bell32(0.0), r32(0.0), r32(3.0), 0);
    let table = match newton_tabulation(
        &Bell32(0.0),
        &BellSlope32(0.0),
        &init,
        &[],
        r32(1e-4),
        r32(1.0),
        50,
    ) {
        Ok(table) => table,
        Err(_) => panic!("the tabulation did not converge"),
    };
    let dist = DistCentral::new(Bell32(0.0), &table);
    let mut rng = Script::new(&[]);
    for i in 0..128u32 {
        let left = table.x.get(i as usize).v();
        assert_eq!(dist.attempt(i << 24, &mut rng).map(Value::v), Some(left));
        let below = match dist.attempt((i << 24) | (1 << 31), &mut rng) {
            Some(x) => x.v(),
            None => panic!("a word in the rectangle was rejected"),
        };
        assert_eq!(below.to_bits(), (-table.x.get(i as usize).v()).to_bits());
    }
    // The high half of a 64-bit word is not read.
    let mut rng = Script::new(&[0xffff_ffff_0000_0000 | (5 << 24)]);
    assert_eq!(dist.try_sample(&mut rng).map(Value::v), Some(table.x.get(5).v()));
}

#[test]
fn bounded_sampler_follows_the_function() {
    // exp(-x) over [0, 3], tested through its cumulative distribution
    // function at the quartiles.
    let table = tabulate::<P128, _, _>(&Decay, &DecaySlope, 0.0, 3.0, &[], 1e-9);
    let dist = DistAny::new(Decay, &table);
    let mut rng = test_rng();
    let n = 1_000_000;
    let mut counts = [0u32; 4];
    let mut attempts = 0u64;
    for _ in 0..n {
        let x = loop {
            attempts += 1;
            if let Some(x) = dist.try_sample(&mut rng) {
                break x.v();
            }
        };
        assert!(0.0 <= x && x <= 3.0);
        let u = (1.0 - (-x).exp()) / (1.0 - (-3f64).exp());
        counts[((u * 4.0) as usize).min(3)] += 1;
    }
    for c in counts {
        let sigma = (n as f64 * 0.25 * 0.75).sqrt();
        assert!((c as f64 - 0.25 * n as f64).abs() < 5.0 * sigma);
    }
    // Nearly every attempt gives a sample.
    assert!(attempts as f64 <= 1.03 * n as f64);
}

#[test]
fn bounded_symmetric_samplers_follow_the_function() {
    // exp(-x^2 / 2) over [-3, 3], about the origin and about 2, tested
    // through the cumulative distribution function at the octiles.
    let table = tabulate::<P128, _, _>(&Bell(0.0), &BellSlope(0.0), 0.0, 3.0, &[], 1e-9);
    let central = DistCentral::new(Bell(0.0), &table);
    let table = tabulate::<P128, _, _>(&Bell(2.0), &BellSlope(2.0), 2.0, 5.0, &[], 1e-9);
    let symmetric = DistSymmetric::new(r64(2.0), Bell(2.0), &table);
    let cdf = |x: f64| {
        let at = |x: f64| erf(x / 2f64.sqrt());
        0.5 * (1.0 + at(x) / at(3.0))
    };
    let mut rng = test_rng();
    let n = 1_000_000;
    let mut counts = [[0u32; 8]; 2];
    for _ in 0..n {
        let x = loop {
            if let Some(x) = central.try_sample(&mut rng) {
                break x.v();
            }
        };
        assert!(-3.0 <= x && x <= 3.0);
        counts[0][((cdf(x) * 8.0) as usize).min(7)] += 1;
        let x = loop {
            if let Some(x) = symmetric.try_sample(&mut rng) {
                break x.v();
            }
        };
        assert!(-1.0 <= x && x <= 5.0);
        counts[1][((cdf(x - 2.0) * 8.0) as usize).min(7)] += 1;
    }
    for c in counts.iter().flatten() {
        let sigma = (n as f64 * 0.125 * 0.875).sqrt();
        assert!((*c as f64 - 0.125 * n as f64).abs() < 5.0 * sigma);
    }
}

#[test]
fn a_uniform_number_is_read_in_the_top_bits_of_a_word() {
    // All bits set: the largest numerator, one unit below the denominator.
    assert_eq!(Number::<F32>::from_word(u32::MAX).v(), 16777215.0 / 16777216.0);
    assert_eq!(Number::<F32>::from_word(0).v(), 0.0);
    // The low bits of the word are not read.
    assert_eq!(Number::<F32>::from_word(0xff).v(), 0.0);
    assert_eq!(Number::<F32>::from_word(0x100).v(), 1.0 / 16777216.0);
    assert_eq!(Number::<F32>::from_word(1 << 31).v(), 0.5);
    assert_eq!(Number::<F64>::from_word(u64::MAX).v(), 1.0 - 2f64.powi(-53));
    assert_eq!(Number::<F64>::from_word(0x7ff).v(), 0.0);
    assert_eq!(Number::<F64>::from_word(0x800).v(), 2f64.powi(-53));
    assert_eq!(Number::<F64>::from_word(3 << 62).v(), 0.75);
    // A drawn number is the number of the drawn word.
    let mut rng = Script::new(&[0xdead_beef_0000_0000]);
    assert_eq!(
        Number::<F64>::gen(&mut rng).v(),
        Number::<F64>::from_word(0xdead_beef_0000_0000).v()
    );
}

#[test]
fn an_outcome_tells_the_next_step() {
    let accepted: Attempt<F64> = Attempt::Accepted(r64(1.5));
    assert!(matches!(accepted.next(false), Step::Done(x) if x.v() == 1.5));
    let accepted: Attempt<F64> = Attempt::Accepted(r64(1.5));
    assert!(matches!(accepted.next(true), Step::Done(x) if x.v() == 1.5));
    let rejected: Attempt<F64> = Attempt::Rejected;
    assert!(matches!(rejected.next(false), Step::Restart));
    let rejected: Attempt<F64> = Attempt::Rejected;
    assert!(matches!(rejected.next(true), Step::Restart));
    // Only a tail of exact weight is sampled again, with the same sign.
    let tail: Attempt<F64> = Attempt::TailRejected(1 << 63);
    assert!(matches!(tail.next(true), Step::RetryTail(sign) if sign == 1 << 63));
    let tail: Attempt<F64> = Attempt::TailRejected(1 << 63);
    assert!(matches!(tail.next(false), Step::Restart));
}

#[test]
fn a_test_or_a_tail_draw_decides_the_outcome() {
    assert!(matches!(Attempt::after_test(true, r64(2.0)), Attempt::Accepted(x) if x.v() == 2.0));
    assert!(matches!(Attempt::after_test(false, r64(2.0)), Attempt::Rejected));
    assert!(matches!(
        Attempt::<F64>::after_tail(Some(r64(9.0)), 1 << 63),
        Attempt::Accepted(x) if x.v() == 9.0
    ));
    assert!(matches!(
        Attempt::<F64>::after_tail(None, 1 << 63),
        Attempt::TailRejected(sign) if sign == 1 << 63
    ));
    assert_eq!(kept_if(true, r64(2.0)).map(Value::v), Some(2.0));
    assert_eq!(kept_if(false, r64(2.0)).map(Value::v), None);
}

#[test]
fn a_node_is_kept_between_its_neighbours() {
    assert_eq!(clamp_between(r64(2.5), r64(1.0), r64(3.0)).v(), 2.5);
    assert_eq!(clamp_between(r64(0.5), r64(1.0), r64(3.0)).v(), 1.0);
    assert_eq!(clamp_between(r64(3.5), r64(1.0), r64(3.0)).v(), 3.0);
    // The neighbours may come in either order.
    assert_eq!(clamp_between(r64(0.5), r64(3.0), r64(1.0)).v(), 1.0);
    assert_eq!(clamp_between(r64(3.5), r64(3.0), r64(1.0)).v(), 3.0);
    // A target that is not a number goes to the upper neighbour.
    assert_eq!(clamp_between(r64(f64::NAN), r64(1.0), r64(3.0)).v(), 3.0);
}

#[test]
fn a_partition_with_two_nodes_in_one_place_is_no_table() {
    // With an infinite tolerance every partition passes the convergence
    // test; one whose nodes grow all along is tabulated as it is.
    let mut x: NodeArray<P16, F64> = NodeArray::default();
    for i in 0..=16 {
        x.set(i, r64(i as f64));
    }
    let table = match newton_tabulation(
        &Decay,
        &DecaySlope,
        &x,
        &[],
        r64(f64::INFINITY),
        r64(1.0),
        10,
    ) {
        Ok(table) => table,
        Err(_) => panic!("a partition that passes the test was refused"),
    };
    assert_eq!(nodes(&table.x), nodes(&x));
    // With two nodes in one place it is refused.
    x.set(5, r64(4.0));
    assert!(matches!(
        newton_tabulation(&Decay, &DecaySlope, &x, &[], r64(f64::INFINITY), r64(1.0), 10),
        Err(TabulationError::ConvergenceFailure)
    ));
}

#[test]
fn table_data_give_the_points_of_a_cell() {
    let mut yinf = [1.0; 16];
    yinf[2] = 0.125;
    let table = unit_table(&yinf);
    let tail_switch = max_switch::<P16, u64>(false);
    let data = process_table(r64(0.5), &table, tail_switch);
    // Halfway through the rectangle of the second cell.
    let parts = Parts { index: 1, fraction: 1u64 << 59, sign: 0u64 };
    assert_eq!(data.rectangle(&parts).v(), 1.0);
    // The candidate for the uniform number 1/4 in the third cell, with the
    // width of the cell.
    let parts = Parts { index: 2, fraction: 1u64 << 59, sign: 0u64 };
    let (x, dx) = data.wedge_candidate(&parts, r64(0.25));
    assert_eq!((x.v(), dx.v()), (1.75, 1.0));
    // The height of the fraction, scaled: half of the area of one rectangle.
    assert_eq!(data.wedge_level(&parts).v(), 0.5);
}

#[test]
fn a_tail_sample_is_placed_on_the_side_of_the_sign() {
    let table = tabulate::<P16, _, _>(&Bell(0.0), &BellSlope(0.0), 0.0, 3.0, &[], 1e-9);
    let area = total_area(&table);
    let dist = DistSymmetricTailed::new(r64(10.0), Bell(10.0), &table, Always(17.0), r64(area));
    assert_eq!(dist.place_tail(r64(17.0), 0).v(), 17.0);
    assert_eq!(dist.place_tail(r64(17.0), 1 << 63).v(), 3.0);
    let dist = DistCentralTailed::new(Bell(0.0), &table, Always(7.0), r64(area));
    assert_eq!(dist.place_tail(r64(7.0), 0).v(), 7.0);
    assert_eq!(dist.place_tail(r64(7.0), 1 << 63).v(), -7.0);
    let dist = DistAnyTailed::new(Bell(0.0), &table, Always(7.0), r64(area));
    assert_eq!(dist.place_tail(r64(7.0)).v(), 7.0);
    assert!(matches!(
        DistAnyTailed::<P16, F64, Bell, Always>::next_step(Attempt::TailRejected(0)),
        Step::Restart
    ));
}

#[test]
fn a_weibull_trial_follows_its_two_numbers() {
    // Scale 2, shape 1, location 0, cut-in 1, under a function that is far
    // above the envelope, then one that is below.
    let above = WeibullEnvelope::new(r64(1e-9), r64(2.0), r64(1.0), r64(0.0), r64(1.0), Flat);
    // x = (1 - ln(1 - r))^(1/2)
    let x = (1.0 - (0.5f64).ln()).powf(0.5);
    assert_eq!(above.trial(r64(0.5), r64(0.999)).map(Value::v), Some(x));
    assert_eq!(above.trial(r64(0.0), r64(0.0)).map(Value::v), Some(1.0));
    let below = WeibullEnvelope::new(r64(1.0), r64(2.0), r64(1.0), r64(0.0), r64(1.0), Nought);
    assert_eq!(below.trial(r64(0.5), r64(0.999)).map(Value::v), None);
    // A drawn trial is the trial of the two drawn numbers.
    let mut rng = Script::new(&[1 << 63, 0]);
    assert_eq!(above.try_sample(&mut rng).map(Value::v), Some(x));
}

#[test]
fn the_general_wedge_test_compares_with_the_function() {
    // a f(x) > b, with f(x) = exp(-x).
    assert!(wedge_test(&Decay, r64(0.0), r64(2.0), r64(1.0)));
    assert!(!wedge_test(&Decay, r64(0.0), r64(1.0), r64(1.0)));
    assert!(!wedge_test(&Decay, r64(1.0), r64(2.0), r64(1.0)));
    assert!(wedge_test(&Decay, r64(1.0), r64(3.0), r64(1.0)));
    // A value that is not a number passes no test.
    assert!(!wedge_test(&Undefined, r64(0.0), r64(2.0), r64(1.0)));
}

/// One everywhere but at one half, where it is two.
struct Spike;

impl UnivariateFn<F64> for Spike {
    fn eval(&self, x: Number<F64>) -> Number<F64> {
        r64(if x.v() == 0.5 { 2.0 } else { 1.0 })
    }

    fn test(&self, x: Number<F64>, a: Number<F64>, b: Number<F64>) -> bool {
        wedge_test(self, x, a, b)
    }

    fn spec_eval(&self, x: Number<F64>) -> Number<F64> {
        self.eval(x)
    }
}

#[test]
fn extrema_are_counted_whether_the_nodes_grow_or_fall() {
    // Nodes that fall from 16 to 0: the extremum lies in the last cell.
    let mut x: NodeArray<P16, F64> = NodeArray::default();
    for i in 0..=16 {
        x.set(i, r64((16 - i) as f64));
    }
    let table = match newton_tabulation(&Spike, &Nought, &x, &[r64(0.5)], r64(2.0), r64(1.0), 0) {
        Ok(table) => table,
        Err(_) => panic!("a partition that passes the test was refused"),
    };
    assert_eq!(nodes(&table.x), nodes(&x));
    // The largest rectangle is that of the last cell, with the supremum two.
    assert_eq!(values(&table.ysup), vec![2.0; 16]);
    assert_eq!(values(&table.yinf), vec![1.0; 16]);
    // The same with nodes that grow: the extremum lies in the first cell.
    for i in 0..=16 {
        x.set(i, r64(i as f64));
    }
    let table = match newton_tabulation(&Spike, &Nought, &x, &[r64(0.5)], r64(2.0), r64(1.0), 0) {
        Ok(table) => table,
        Err(_) => panic!("a partition that passes the test was refused"),
    };
    assert_eq!(values(&table.ysup), vec![2.0; 16]);
    assert_eq!(values(&table.yinf), vec![1.0; 16]);
    // Two extrema are taken in the order in which the falling cells meet
    // them.
    for i in 0..=16 {
        x.set(i, r64((16 - i) as f64));
    }
    let dip = Dip;
    let extrema = [r64(14.5), r64(0.5)];
    let table = match newton_tabulation(&dip, &Nought, &x, &extrema, r64(2.0), r64(1.0), 0) {
        Ok(table) => table,
        Err(_) => panic!("a partition that passes the test was refused"),
    };
    let mut yinf = vec![1.0; 16];
    yinf[1] = 0.25;
    assert_eq!(values(&table.yinf), yinf);
    assert_eq!(values(&table.ysup), vec![2.0; 16]);
}

/// One everywhere but at one half, where it is two, and at 14.5, where it is
/// one quarter.
struct Dip;

impl UnivariateFn<F64> for Dip {
    fn eval(&self, x: Number<F64>) -> Number<F64> {
        r64(if x.v() == 0.5 {
            2.0
        } else if x.v() == 14.5 {
            0.25
        } else {
            1.0
        })
    }

    fn test(&self, x: Number<F64>, a: Number<F64>, b: Number<F64>) -> bool {
        wedge_test(self, x, a, b)
    }

    fn spec_eval(&self, x: Number<F64>) -> Number<F64> {
        self.eval(x)
    }
}
