//! Numeric types.
//!
//! Random bits arrive in unsigned words and samples leave as floating-point
//! numbers of the same width. A number is held as its IEEE 754 bit pattern in
//! a word ([`Number`]). What can be read off the pattern is read off it here,
//! and specified exactly: the sign, the order of two numbers, whether a
//! pattern is a number at all, and the uniform numbers of `[0, 1)`, which are
//! written down from their numerators. What has to be computed, from a sum to
//! a logarithm, is asked of the [`Float`] capability set, which stands for the
//! arithmetic of the machine: the library never relies on what an operation
//! of that set returns, so every guarantee it gives holds for any
//! implementation.

use rand_core::RngCore;
use vstd::prelude::*;

verus! {

/// The word with the `n` lowest bits set.
pub open spec fn low_mask(n: u32) -> u64 {
    if n >= 64 {
        0xffff_ffff_ffff_ffffu64
    } else {
        ((1u64 << n) - 1) as u64
    }
}

/// The word of the given width with only its top bit set.
pub open spec fn sign_mask(width: u32) -> u64 {
    1u64 << ((width - 1) as u32)
}

/// Right shift of a word of the given width read as a two's complement signed
/// integer: the vacated top bits are filled with copies of the top bit.
pub open spec fn sign_extended_shift(v: u64, width: u32, n: u32) -> u64 {
    if v & sign_mask(width) != 0 {
        (v >> n) | (low_mask(width) ^ low_mask((width - n) as u32))
    } else {
        v >> n
    }
}

/// The pattern `c` with its sign bit toggled, in arithmetic terms: the
/// magnitude below the top bit is kept and the top bit is added or removed.
pub open spec fn sign_toggled(c: u64, width: u32) -> int {
    if c >= sign_mask(width) {
        c - sign_mask(width)
    } else {
        c + sign_mask(width)
    }
}

/// The pattern that is written `narrow` in words of 32 bits and `wide` in
/// words of 64 bits.
pub open spec fn select_pattern(width: u32, narrow: u32, wide: u64) -> u64 {
    if width == 32 {
        narrow as u64
    } else {
        wide
    }
}

/// The pattern of the number one.
pub open spec fn one_pattern(width: u32) -> u64 {
    select_pattern(width, 0x3f80_0000, 0x3ff0_0000_0000_0000)
}

/// The pattern of positive infinity: every bit of the exponent set, none of
/// the significand.
pub open spec fn infinity_pattern(width: u32) -> u64 {
    select_pattern(width, 0x7f80_0000, 0x7ff0_0000_0000_0000)
}

/// The pattern without its sign bit: the pattern of the absolute value.
pub open spec fn magnitude(v: u64, width: u32) -> u64 {
    if v >= sign_mask(width) {
        (v - sign_mask(width)) as u64
    } else {
        v
    }
}

/// Whether the pattern is that of a NaN: its magnitude lies beyond infinity.
pub open spec fn is_nan_pattern(v: u64, width: u32) -> bool {
    magnitude(v, width) > infinity_pattern(width)
}

/// The place of a pattern in the order of the numbers. The magnitudes of the
/// patterns grow with the absolute values that they encode, so the magnitude
/// with the sign of the number is an integer that grows with the number; both
/// zeros have the place zero.
pub open spec fn order_key(v: u64, width: u32) -> int {
    if v >= sign_mask(width) {
        -(magnitude(v, width) as int)
    } else {
        v as int
    }
}

/// Whether the number of pattern `a` is less than that of pattern `b`: neither
/// is a NaN and `a` comes first in the order of the numbers.
pub open spec fn lt_pattern(a: u64, b: u64, width: u32) -> bool {
    !is_nan_pattern(a, width) && !is_nan_pattern(b, width) && order_key(a, width) < order_key(
        b,
        width,
    )
}

/// Whether the number of pattern `a` is less than or equal to that of pattern
/// `b`: neither is a NaN and `b` does not come first in the order of the
/// numbers.
pub open spec fn le_pattern(a: u64, b: u64, width: u32) -> bool {
    !is_nan_pattern(a, width) && !is_nan_pattern(b, width) && order_key(a, width) <= order_key(
        b,
        width,
    )
}

/// The word nearest to the number of pattern `v`: a number midway between two
/// words goes to the word away from zero, a number beyond the words to the
/// last of them, a negative number or a NaN to zero.
pub open spec fn rounded_pattern(v: u64, width: u32) -> u64 {
    let sig = select_pattern(width, 23, 52) as u32;
    // The exponent of one half.
    let half = select_pattern(width, 126, 1022) as u32;
    let exponent = (v >> sig) as u32;
    let significand = (v & low_mask(sig)) | (1u64 << sig);
    if v >= sign_mask(width) || is_nan_pattern(v, width) {
        0
    } else if exponent < half {
        0
    } else if exponent > half + width {
        low_mask(width)
    } else if exponent > half + sig {
        significand << ((exponent - half - 1 - sig) as u32)
    } else {
        (significand + (1u64 << ((half + sig - exponent) as u32))) as u64 >> ((half + 1 + sig
            - exponent) as u32)
    }
}

/// Draws the next 32-bit word of the generator through `RngCore::next_u32`.
/// Any word may come back, so nothing is claimed of it. The call returns
/// unless the generator itself gives up, as one that reads a device may.
#[verifier::external_body]
fn next_u32<R: RngCore + ?Sized>(rng: &mut R) -> (r: u32) {
    rng.next_u32()
}

/// Draws the next 64-bit word of the generator through `RngCore::next_u64`.
/// Any word may come back, so nothing is claimed of it. The call returns
/// unless the generator itself gives up, as one that reads a device may.
#[verifier::external_body]
fn next_u64<R: RngCore + ?Sized>(rng: &mut R) -> (r: u64) {
    rng.next_u64()
}

/// An unsigned integer type: the word that holds the bit pattern of a
/// floating-point number of the same width, and in which random bits are
/// drawn.
pub trait UInt: Copy + Sized {
    /// Width of the word.
    spec fn spec_bits() -> u32;

    /// Number of explicitly stored significand bits of the floating-point
    /// format of this width.
    spec fn spec_significand_bits() -> u32;

    /// The word as a number.
    spec fn value(self) -> u64;

    /// The two supported formats.
    proof fn lemma_format()
        ensures
            (Self::spec_bits() == 32 && Self::spec_significand_bits() == 23) || (Self::spec_bits()
                == 64 && Self::spec_significand_bits() == 52),
    ;

    /// A word holds no bit beyond its width.
    proof fn lemma_value_fits(self)
        ensures
            self.value() <= low_mask(Self::spec_bits()),
    ;

    /// Words are equal when their numbers are.
    proof fn lemma_value_injective(self, other: Self)
        requires
            self.value() == other.value(),
        ensures
            self == other,
    ;

    /// The word that is the number `v`, where `v` fits the width.
    spec fn of_value(v: u64) -> Self;

    /// Every number that fits the width is a word.
    proof fn lemma_of_value(v: u64)
        requires
            v <= low_mask(Self::spec_bits()),
        ensures
            Self::of_value(v).value() == v,
    ;

    /// Width of the word.
    fn bits() -> (b: u32)
        ensures
            b == Self::spec_bits(),
    ;

    /// Number of explicitly stored significand bits of the floating-point
    /// format of this width.
    fn significand_bits() -> (b: u32)
        ensures
            b == Self::spec_significand_bits(),
    ;

    /// The word zero.
    fn zero() -> (z: Self)
        ensures
            z.value() == 0,
    ;

    /// The word one.
    fn one() -> (o: Self)
        ensures
            o.value() == 1,
    ;

    /// The largest word, with every bit set.
    fn max() -> (m: Self)
        ensures
            m.value() == low_mask(Self::spec_bits()),
    ;

    /// The word that is written `narrow` in 32 bits and `wide` in 64 bits.
    fn select(narrow: u32, wide: u64) -> (w: Self)
        ensures
            w.value() == select_pattern(Self::spec_bits(), narrow, wide),
    ;

    /// Draws a word in which every bit is random.
    fn gen<R: RngCore + ?Sized>(rng: &mut R) -> Self;

    /// The word as an index.
    fn as_usize(self) -> (r: usize)
        requires
            self.value() <= usize::MAX,
        ensures
            r == self.value(),
    ;

    /// Shifts the word right as a signed integer, keeping its top bit.
    fn arithmetic_right_shift(self, shift: u32) -> (r: Self)
        requires
            shift < Self::spec_bits(),
        ensures
            r.value() == sign_extended_shift(self.value(), Self::spec_bits(), shift),
    ;

    /// Shifts the word left; the bits that leave the word are lost.
    fn shl(self, shift: u32) -> (r: Self)
        requires
            shift < Self::spec_bits(),
        ensures
            r.value() == (self.value() << shift) & low_mask(Self::spec_bits()),
    ;

    /// Shifts the word right, filling with zeros.
    fn shr(self, shift: u32) -> (r: Self)
        requires
            shift < Self::spec_bits(),
        ensures
            r.value() == self.value() >> shift,
    ;

    /// The bits set in both words.
    fn bitand(self, rhs: Self) -> (r: Self)
        ensures
            r.value() == self.value() & rhs.value(),
    ;

    /// The bits set in one of the words only.
    fn bitxor(self, rhs: Self) -> (r: Self)
        ensures
            r.value() == self.value() ^ rhs.value(),
    ;

    /// The sum of two words, where it is a word.
    fn add(self, rhs: Self) -> (r: Self)
        requires
            self.value() + rhs.value() <= low_mask(Self::spec_bits()),
        ensures
            r.value() == self.value() + rhs.value(),
    ;

    /// The difference of two words of which the first is no smaller.
    fn sub(self, rhs: Self) -> (r: Self)
        requires
            rhs.value() <= self.value(),
        ensures
            r.value() == self.value() - rhs.value(),
    ;

    /// Whether the word is at most `rhs`.
    fn le(self, rhs: Self) -> (b: bool)
        ensures
            b == (self.value() <= rhs.value()),
    ;

    /// Whether the word exceeds `rhs`.
    fn gt(self, rhs: Self) -> (b: bool)
        ensures
            b == (self.value() > rhs.value()),
    ;
}

impl UInt for u32 {
    open spec fn spec_bits() -> u32 {
        32
    }

    open spec fn spec_significand_bits() -> u32 {
        23
    }

    open spec fn value(self) -> u64 {
        self as u64
    }

    proof fn lemma_format() {
    }

    proof fn lemma_value_fits(self) {
        assert(self as u64 <= low_mask(32)) by (bit_vector);
    }

    proof fn lemma_value_injective(self, other: Self) {
    }

    open spec fn of_value(v: u64) -> Self {
        v as u32
    }

    proof fn lemma_of_value(v: u64) {
        assert(v <= low_mask(32) ==> v as u32 as u64 == v) by (bit_vector);
    }

    fn bits() -> (b: u32) {
        32
    }

    fn significand_bits() -> (b: u32) {
        23
    }

    fn zero() -> (z: Self) {
        0u32
    }

    fn one() -> (o: Self) {
        1u32
    }

    fn max() -> (m: Self) {
        assert(u32::MAX as u64 == low_mask(32)) by (bit_vector);
        u32::MAX
    }

    fn select(narrow: u32, wide: u64) -> (w: Self) {
        narrow
    }

    fn gen<R: RngCore + ?Sized>(rng: &mut R) -> Self {
        next_u32(rng)
    }

    fn as_usize(self) -> (r: usize) {
        self as usize
    }

    fn arithmetic_right_shift(self, shift: u32) -> (r: Self) {
        let r = ((self as i32) >> shift) as u32;
        assert((((self as i32) >> shift) as u32) as u64 == sign_extended_shift(
            self as u64,
            32,
            shift,
        )) by (bit_vector)
            requires
                shift < 32,
        ;
        r
    }

    fn shl(self, shift: u32) -> (r: Self) {
        let r = self << shift;
        assert((self << shift) as u64 == ((self as u64) << shift) & low_mask(32)) by (bit_vector)
            requires
                shift < 32,
        ;
        r
    }

    fn shr(self, shift: u32) -> (r: Self) {
        let r = self >> shift;
        assert((self >> shift) as u64 == (self as u64) >> shift) by (bit_vector)
            requires
                shift < 32,
        ;
        r
    }

    fn bitand(self, rhs: Self) -> (r: Self) {
        let r = self & rhs;
        assert((self & rhs) as u64 == (self as u64) & (rhs as u64)) by (bit_vector);
        r
    }

    fn bitxor(self, rhs: Self) -> (r: Self) {
        let r = self ^ rhs;
        assert((self ^ rhs) as u64 == (self as u64) ^ (rhs as u64)) by (bit_vector);
        r
    }

    fn add(self, rhs: Self) -> (r: Self) {
        assert(low_mask(32) == 0xffff_ffffu64) by (bit_vector);
        self + rhs
    }

    fn sub(self, rhs: Self) -> (r: Self) {
        self - rhs
    }

    fn le(self, rhs: Self) -> (b: bool) {
        self <= rhs
    }

    fn gt(self, rhs: Self) -> (b: bool) {
        self > rhs
    }
}

impl UInt for u64 {
    open spec fn spec_bits() -> u32 {
        64
    }

    open spec fn spec_significand_bits() -> u32 {
        52
    }

    open spec fn value(self) -> u64 {
        self
    }

    proof fn lemma_format() {
    }

    proof fn lemma_value_fits(self) {
    }

    proof fn lemma_value_injective(self, other: Self) {
    }

    open spec fn of_value(v: u64) -> Self {
        v
    }

    proof fn lemma_of_value(v: u64) {
    }

    fn bits() -> (b: u32) {
        64
    }

    fn significand_bits() -> (b: u32) {
        52
    }

    fn zero() -> (z: Self) {
        0u64
    }

    fn one() -> (o: Self) {
        1u64
    }

    fn max() -> (m: Self) {
        u64::MAX
    }

    fn select(narrow: u32, wide: u64) -> (w: Self) {
        wide
    }

    fn gen<R: RngCore + ?Sized>(rng: &mut R) -> Self {
        next_u64(rng)
    }

    fn as_usize(self) -> (r: usize) {
        self as usize
    }

    fn arithmetic_right_shift(self, shift: u32) -> (r: Self) {
        let r = ((self as i64) >> shift) as u64;
        assert(((self as i64) >> shift) as u64 == sign_extended_shift(self, 64, shift))
            by (bit_vector)
            requires
                shift < 64,
        ;
        r
    }

    fn shl(self, shift: u32) -> (r: Self) {
        let r = self << shift;
        assert(self << shift == (self << shift) & low_mask(64)) by (bit_vector);
        r
    }

    fn shr(self, shift: u32) -> (r: Self) {
        self >> shift
    }

    fn bitand(self, rhs: Self) -> (r: Self) {
        self & rhs
    }

    fn bitxor(self, rhs: Self) -> (r: Self) {
        self ^ rhs
    }

    fn add(self, rhs: Self) -> (r: Self) {
        self + rhs
    }

    fn sub(self, rhs: Self) -> (r: Self) {
        self - rhs
    }

    fn le(self, rhs: Self) -> (b: bool) {
        self <= rhs
    }

    fn gt(self, rhs: Self) -> (b: bool) {
        self > rhs
    }
}

/// Draws the numerator of a uniform number in `[0, 1)`: a word of which the
/// lowest `SIGNIFICAND_BITS + 1` bits are random and the others are clear. The
/// number itself is the numerator over `2^(SIGNIFICAND_BITS + 1)`, so the
/// numerator stays strictly below the denominator.
pub fn uniform_numerator<U: UInt, R: RngCore + ?Sized>(rng: &mut R) -> (k: U)
    ensures
        k.value() < (1u64 << ((U::spec_significand_bits() + 1) as u32)),
        exists|r: u64| k.value() == #[trigger] spec_numerator_of(r, U::spec_bits()),
{
    let r = U::gen(rng);
    let k = numerator_of(r);
    assert(k.value() == spec_numerator_of(r.value(), U::spec_bits()));
    k
}

/// The numerator that is read in the random word `r`: its highest
/// `SIGNIFICAND_BITS + 1` bits, moved down to the lowest places.
pub open spec fn spec_numerator_of(r: u64, width: u32) -> u64 {
    r >> select_pattern(width, 8, 11)
}

/// Reads the numerator of a uniform number in the random word `r`: the word
/// shifted right by `BITS - SIGNIFICAND_BITS - 1` places, so that its highest
/// `SIGNIFICAND_BITS + 1` bits are kept.
pub fn numerator_of<U: UInt>(r: U) -> (k: U)
    ensures
        k.value() == r.value() >> ((U::spec_bits() - U::spec_significand_bits() - 1) as u32),
        k.value() == spec_numerator_of(r.value(), U::spec_bits()),
        k.value() < (1u64 << ((U::spec_significand_bits() + 1) as u32)),
{
    proof {
        U::lemma_format();
    }
    let k = r.shr(U::bits() - U::significand_bits() - 1);
    proof {
        r.lemma_value_fits();
        let v = r.value();
        assert(v <= low_mask(32) ==> (v >> 8u32) < (1u64 << 24u32)) by (bit_vector);
        assert((v >> 11u32) < (1u64 << 53u32)) by (bit_vector);
    }
    k
}

/// Folding a bit pattern with the zero word changes nothing.
pub proof fn lemma_fold_with_zero_is_identity(c: u64)
    by (bit_vector)
    ensures
        c ^ 0 == c,
{
}

/// Folding a bit pattern with the sign mask of its width toggles the top bit
/// and leaves every other bit alone; folding twice gives the pattern back. In
/// the IEEE 754 encodings the top bit is the sign and the rest is the
/// magnitude, so this is negation; the pattern of a NaN has its sign bit
/// toggled like any other.
pub proof fn lemma_fold_with_sign_mask_negates(c: u64, width: u32)
    by (bit_vector)
    requires
        width == 32 || width == 64,
        c <= low_mask(width),
    ensures
        (c ^ sign_mask(width)) == sign_toggled(c, width),
        (c ^ sign_mask(width)) & low_mask((width - 1) as u32) == c & low_mask((width - 1) as u32),
        (c ^ sign_mask(width)) & sign_mask(width) != c & sign_mask(width),
        (c ^ sign_mask(width)) ^ sign_mask(width) == c,
{
}

/// The arithmetic of a floating-point format, as the machine provides it.
///
/// The operations have the usual IEEE 754 meaning for the two supported
/// formats. Each is a function of its operands: the same operands give the
/// same number. That is all the library relies on, and the contract of each
/// operation says no more: it gives the result a name, `spec_add` for `add`
/// and so on, by which the contracts of the library say which operations make
/// up a number. A name has no definition here: to the verifier it is any
/// function of the operands. A format whose operations are not verified lets
/// each name stand for the operation itself.
pub trait Float: Copy + Sized {
    /// The word that holds the bit pattern of a number of this format.
    type UInt: UInt;

    /// The number that the format gives for the conversion of a 32-bit integer.
    spec fn spec_cast_u32(u: u32) -> Number<Self>;

    /// Conversion of a 32-bit integer to the nearest number.
    fn cast_u32(u: u32) -> (r: Number<Self>)
        ensures
            r == Self::spec_cast_u32(u),
    ;

    /// The number that the format gives for the conversion of an index.
    spec fn spec_cast_usize(u: usize) -> Number<Self>;

    /// Conversion of an index to the nearest number.
    fn cast_usize(u: usize) -> (r: Number<Self>)
        ensures
            r == Self::spec_cast_usize(u),
    ;

    /// The number that the format gives for the conversion of a word.
    spec fn spec_cast_uint(u: u64) -> Number<Self>;

    /// Conversion of a word to the nearest number.
    fn cast_uint(u: Self::UInt) -> (r: Number<Self>)
        ensures
            r == Self::spec_cast_uint(u.value()),
    ;

    /// The number that the format gives for `x + y`.
    spec fn spec_add(x: Number<Self>, y: Number<Self>) -> Number<Self>;

    /// `x + y`.
    fn add(x: Number<Self>, y: Number<Self>) -> (r: Number<Self>)
        ensures
            r == Self::spec_add(x, y),
    ;

    /// The number that the format gives for `x - y`.
    spec fn spec_sub(x: Number<Self>, y: Number<Self>) -> Number<Self>;

    /// `x - y`.
    fn sub(x: Number<Self>, y: Number<Self>) -> (r: Number<Self>)
        ensures
            r == Self::spec_sub(x, y),
    ;

    /// The number that the format gives for `x * y`.
    spec fn spec_mul(x: Number<Self>, y: Number<Self>) -> Number<Self>;

    /// `x * y`.
    fn mul(x: Number<Self>, y: Number<Self>) -> (r: Number<Self>)
        ensures
            r == Self::spec_mul(x, y),
    ;

    /// The number that the format gives for `x / y`.
    spec fn spec_div(x: Number<Self>, y: Number<Self>) -> Number<Self>;

    /// `x / y`.
    fn div(x: Number<Self>, y: Number<Self>) -> (r: Number<Self>)
        ensures
            r == Self::spec_div(x, y),
    ;

    /// The number that the format gives for the square root.
    spec fn spec_sqrt(x: Number<Self>) -> Number<Self>;

    /// Square root.
    fn sqrt(x: Number<Self>) -> (r: Number<Self>)
        ensures
            r == Self::spec_sqrt(x),
    ;

    /// The number that the format gives for the tangent.
    spec fn spec_tan(x: Number<Self>) -> Number<Self>;

    /// Tangent.
    fn tan(x: Number<Self>) -> (r: Number<Self>)
        ensures
            r == Self::spec_tan(x),
    ;

    /// The number that the format gives for the arctangent.
    spec fn spec_atan(x: Number<Self>) -> Number<Self>;

    /// Arctangent.
    fn atan(x: Number<Self>) -> (r: Number<Self>)
        ensures
            r == Self::spec_atan(x),
    ;

    /// The number that the format gives for the natural logarithm.
    spec fn spec_ln(x: Number<Self>) -> Number<Self>;

    /// Natural logarithm.
    fn ln(x: Number<Self>) -> (r: Number<Self>)
        ensures
            r == Self::spec_ln(x),
    ;

    /// The number that the format gives for the base 2 logarithm.
    spec fn spec_log2(x: Number<Self>) -> Number<Self>;

    /// Base 2 logarithm.
    fn log2(x: Number<Self>) -> (r: Number<Self>)
        ensures
            r == Self::spec_log2(x),
    ;

    /// The number that the format gives for the exponential function.
    spec fn spec_exp(x: Number<Self>) -> Number<Self>;

    /// Exponential function.
    fn exp(x: Number<Self>) -> (r: Number<Self>)
        ensures
            r == Self::spec_exp(x),
    ;

    /// The number that the format gives for `x` raised to the power `y`.
    spec fn spec_powf(x: Number<Self>, y: Number<Self>) -> Number<Self>;

    /// `x` raised to the power `y`.
    fn powf(x: Number<Self>, y: Number<Self>) -> (r: Number<Self>)
        ensures
            r == Self::spec_powf(x, y),
    ;

    /// The number that the format gives for the error function.
    spec fn spec_erf(x: Number<Self>) -> Number<Self>;

    /// Error function.
    fn erf(x: Number<Self>) -> (r: Number<Self>)
        ensures
            r == Self::spec_erf(x),
    ;

    /// The number that the format gives for the complementary error function.
    spec fn spec_erfc(x: Number<Self>) -> Number<Self>;

    /// Complementary error function.
    fn erfc(x: Number<Self>) -> (r: Number<Self>)
        ensures
            r == Self::spec_erfc(x),
    ;

    /// The number that the format gives for `x * a + b`.
    spec fn spec_mul_add(x: Number<Self>, a: Number<Self>, b: Number<Self>) -> Number<Self>;

    /// `x * a + b`, fused where the target has the instruction.
    fn mul_add(x: Number<Self>, a: Number<Self>, b: Number<Self>) -> (r: Number<Self>)
        ensures
            r == Self::spec_mul_add(x, a, b),
    ;
}

/// A floating-point number of the format `T`, held as its bit pattern.
///
/// The sign and the order of numbers are read off their patterns, as IEEE 754
/// defines them: the zeros of either sign compare equal, a NaN compares with
/// nothing. Arithmetic is left to the format.
#[derive(Copy, Clone)]
pub struct Number<T: Float> {
    bits: T::UInt,
}

impl<T: Float> Number<T> {
    /// The bit pattern of the number.
    pub closed spec fn bits(self) -> u64 {
        self.bits.value()
    }

    /// Whether the value is not a number.
    pub open spec fn spec_is_nan(self) -> bool {
        is_nan_pattern(self.bits(), T::UInt::spec_bits())
    }

    /// `self < rhs`; false if either is not a number.
    pub open spec fn spec_lt(self, rhs: Self) -> bool {
        lt_pattern(self.bits(), rhs.bits(), T::UInt::spec_bits())
    }

    /// `self <= rhs`; false if either is not a number.
    pub open spec fn spec_le(self, rhs: Self) -> bool {
        le_pattern(self.bits(), rhs.bits(), T::UInt::spec_bits())
    }

    /// The smaller of two numbers; if one is not a number, the other; of two
    /// that compare equal, the first.
    pub open spec fn spec_min(self, other: Self) -> Self {
        if self.spec_is_nan() {
            other
        } else if other.spec_lt(self) {
            other
        } else {
            self
        }
    }

    /// The larger of two numbers; if one is not a number, the other; of two
    /// that compare equal, the first.
    pub open spec fn spec_max(self, other: Self) -> Self {
        if self.spec_is_nan() {
            other
        } else if self.spec_lt(other) {
            other
        } else {
            self
        }
    }

    /// Whether the number is zero, of either sign, or negative.
    pub open spec fn is_not_positive(self) -> bool {
        le_pattern(self.bits(), 0, T::UInt::spec_bits())
    }

    /// Whether the number is greater than zero. A NaN is not.
    pub open spec fn is_positive(self) -> bool {
        lt_pattern(0, self.bits(), T::UInt::spec_bits())
    }

    /// The number of the given bit pattern.
    pub closed spec fn of_bits(v: u64) -> Self {
        Number { bits: T::UInt::of_value(v) }
    }

    /// The number zero.
    pub open spec fn spec_zero() -> Self {
        Self::of_bits(0)
    }

    /// The number one.
    pub open spec fn spec_one() -> Self {
        Self::of_bits(one_pattern(T::UInt::spec_bits()))
    }

    /// The number two.
    pub open spec fn spec_two() -> Self {
        Self::spec_from_patterns(0x4000_0000, 0x4000_0000_0000_0000)
    }

    /// The number one half.
    pub open spec fn spec_one_half() -> Self {
        Self::spec_from_patterns(0x3f00_0000, 0x3fe0_0000_0000_0000)
    }

    /// Positive infinity.
    pub open spec fn spec_infinity() -> Self {
        Self::of_bits(infinity_pattern(T::UInt::spec_bits()))
    }

    /// The number nearest to π.
    pub open spec fn spec_pi() -> Self {
        Self::spec_from_patterns(0x4049_0fdb, 0x4009_21fb_5444_2d18)
    }

    /// The number whose bit pattern is written `narrow` in the 32-bit format
    /// and `wide` in the 64-bit format.
    pub open spec fn spec_from_patterns(narrow: u32, wide: u64) -> Self {
        Self::of_bits(select_pattern(T::UInt::spec_bits(), narrow, wide))
    }

    /// The number with the bit pattern folded with the word `u`.
    pub open spec fn spec_bitxor(self, u: u64) -> Self {
        Self::of_bits(self.bits() ^ u)
    }

    /// `-self`: the number with the other sign.
    pub open spec fn spec_neg(self) -> Self {
        Self::of_bits(sign_toggled(self.bits(), T::UInt::spec_bits()) as u64)
    }

    /// Absolute value: the number without its sign.
    pub open spec fn spec_abs(self) -> Self {
        Self::of_bits(magnitude(self.bits(), T::UInt::spec_bits()))
    }

    /// `self > rhs`; false if either is not a number.
    pub open spec fn spec_gt(self, rhs: Self) -> bool {
        rhs.spec_lt(self)
    }

    /// `self >= rhs`; false if either is not a number.
    pub open spec fn spec_ge(self, rhs: Self) -> bool {
        rhs.spec_le(self)
    }

    /// Whether the number lies in `[0, 1)`: it is at least zero and less than
    /// one, and it is written without a sign.
    pub open spec fn is_in_unit_interval(self) -> bool {
        &&& self.bits() < one_pattern(T::UInt::spec_bits())
        &&& le_pattern(0, self.bits(), T::UInt::spec_bits())
        &&& lt_pattern(self.bits(), one_pattern(T::UInt::spec_bits()), T::UInt::spec_bits())
    }

    /// A pattern holds no bit beyond the width of the format.
    pub proof fn lemma_bits_fit(self)
        ensures
            self.bits() <= low_mask(T::UInt::spec_bits()),
    {
        self.bits.lemma_value_fits();
    }

    /// Numbers are equal when their patterns are.
    pub proof fn lemma_bits_injective(self, other: Self)
        requires
            self.bits() == other.bits(),
        ensures
            self == other,
    {
        self.bits.lemma_value_injective(other.bits);
    }

    /// A number is the number of its bit pattern.
    pub proof fn lemma_of_bits(self)
        ensures
            Self::of_bits(self.bits()) == self,
    {
        self.lemma_bits_fit();
        Self::lemma_bits_of(self.bits());
        Self::of_bits(self.bits()).lemma_bits_injective(self);
    }

    /// The number of a bit pattern that fits the width has that pattern.
    pub proof fn lemma_bits_of(v: u64)
        requires
            v <= low_mask(T::UInt::spec_bits()),
        ensures
            Self::of_bits(v).bits() == v,
    {
        T::UInt::lemma_of_value(v);
    }

    /// The number of which the word is the bit pattern.
    pub fn from_bits(u: T::UInt) -> (x: Self)
        ensures
            x.bits() == u.value(),
    {
        Number { bits: u }
    }

    /// The bit pattern of the number.
    pub fn to_bits(self) -> (u: T::UInt)
        ensures
            u.value() == self.bits(),
    {
        self.bits
    }

    /// The number whose bit pattern is written `narrow` in the 32-bit format
    /// and `wide` in the 64-bit format.
    pub fn from_patterns(narrow: u32, wide: u64) -> (x: Self)
        ensures
            x.bits() == select_pattern(T::UInt::spec_bits(), narrow, wide),
            x == Self::spec_from_patterns(narrow, wide),
    {
        let x = Number { bits: T::UInt::select(narrow, wide) };
        proof {
            x.lemma_of_bits();
        }
        x
    }

    /// The number zero.
    pub fn zero() -> (x: Self)
        ensures
            x.bits() == 0,
            x == Self::spec_zero(),
    {
        let x = Number { bits: T::UInt::zero() };
        proof {
            x.lemma_of_bits();
        }
        x
    }

    /// The number one.
    pub fn one() -> (x: Self)
        ensures
            x.bits() == one_pattern(T::UInt::spec_bits()),
            x == Self::spec_one(),
    {
        let x = Number { bits: T::UInt::select(0x3f80_0000, 0x3ff0_0000_0000_0000) };
        proof {
            x.lemma_of_bits();
        }
        x
    }

    /// The number two.
    pub fn two() -> (x: Self)
        ensures
            x.bits() == select_pattern(T::UInt::spec_bits(), 0x4000_0000, 0x4000_0000_0000_0000),
            x == Self::spec_two(),
    {
        let x = Number { bits: T::UInt::select(0x4000_0000, 0x4000_0000_0000_0000) };
        proof {
            x.lemma_of_bits();
        }
        x
    }

    /// The number one half.
    pub fn one_half() -> (x: Self)
        ensures
            x.bits() == select_pattern(T::UInt::spec_bits(), 0x3f00_0000, 0x3fe0_0000_0000_0000),
            x == Self::spec_one_half(),
    {
        let x = Number { bits: T::UInt::select(0x3f00_0000, 0x3fe0_0000_0000_0000) };
        proof {
            x.lemma_of_bits();
        }
        x
    }

    /// Positive infinity.
    pub fn infinity() -> (x: Self)
        ensures
            x.bits() == infinity_pattern(T::UInt::spec_bits()),
            x == Self::spec_infinity(),
    {
        let x = Number { bits: T::UInt::select(0x7f80_0000, 0x7ff0_0000_0000_0000) };
        proof {
            x.lemma_of_bits();
        }
        x
    }

    /// The number nearest to π.
    pub fn pi() -> (x: Self)
        ensures
            x.bits() == select_pattern(T::UInt::spec_bits(), 0x4049_0fdb, 0x4009_21fb_5444_2d18),
            x == Self::spec_pi(),
    {
        let x = Number { bits: T::UInt::select(0x4049_0fdb, 0x4009_21fb_5444_2d18) };
        proof {
            x.lemma_of_bits();
        }
        x
    }

    /// Folds the word `u` into the bit pattern of the number. With the sign
    /// mask this negates the number, with the zero word it returns it
    /// unchanged.
    pub fn bitxor(self, u: T::UInt) -> (x: Self)
        ensures
            x.bits() == self.bits() ^ u.value(),
            x == self.spec_bitxor(u.value()),
    {
        let x = Number { bits: self.bits.bitxor(u) };
        proof {
            x.lemma_of_bits();
        }
        x
    }

    /// `-self`: the number with the other sign.
    pub fn neg(self) -> (x: Self)
        ensures
            x.bits() == sign_toggled(self.bits(), T::UInt::spec_bits()),
            x == self.spec_neg(),
    {
        proof {
            T::UInt::lemma_format();
            self.lemma_bits_fit();
            lemma_sign_mask_is_top_bit(T::UInt::spec_bits());
            lemma_fold_with_sign_mask_negates(self.bits(), T::UInt::spec_bits());
        }
        let sign = T::UInt::one().shl(T::UInt::bits() - 1);
        let x = Number { bits: self.bits.bitxor(sign) };
        proof {
            x.lemma_of_bits();
        }
        x
    }

    /// Absolute value: the number without its sign.
    pub fn abs(self) -> (x: Self)
        ensures
            x.bits() == magnitude(self.bits(), T::UInt::spec_bits()),
            x == self.spec_abs(),
    {
        proof {
            T::UInt::lemma_format();
            self.lemma_bits_fit();
            lemma_magnitude_is_low_bits(self.bits(), T::UInt::spec_bits());
        }
        let x = Number { bits: self.bits.bitand(T::UInt::max().shr(1)) };
        proof {
            x.lemma_of_bits();
        }
        x
    }

    /// Whether the value is not a number.
    pub fn is_nan(self) -> (b: bool)
        ensures
            b == self.spec_is_nan(),
    {
        self.abs().bits.gt(T::UInt::select(0x7f80_0000, 0x7ff0_0000_0000_0000))
    }

    /// Whether the sign bit of the number is set.
    fn is_sign_negative(self) -> (b: bool)
        ensures
            b == (self.bits() >= sign_mask(T::UInt::spec_bits())),
    {
        proof {
            T::UInt::lemma_format();
            self.lemma_bits_fit();
            lemma_magnitude_is_low_bits(self.bits(), T::UInt::spec_bits());
        }
        self.bits.gt(T::UInt::max().shr(1))
    }

    /// `self < rhs`; false if either is not a number.
    pub fn lt(self, rhs: Self) -> (b: bool)
        ensures
            b == self.spec_lt(rhs),
    {
        if self.is_nan() || rhs.is_nan() {
            return false;
        }
        let a = self.abs().bits;
        let b = rhs.abs().bits;
        if self.is_sign_negative() {
            if rhs.is_sign_negative() {
                a.gt(b)
            } else {
                a.gt(T::UInt::zero()) || b.gt(T::UInt::zero())
            }
        } else {
            if rhs.is_sign_negative() {
                false
            } else {
                b.gt(a)
            }
        }
    }

    /// `self <= rhs`; false if either is not a number.
    pub fn le(self, rhs: Self) -> (b: bool)
        ensures
            b == self.spec_le(rhs),
    {
        if self.is_nan() || rhs.is_nan() {
            return false;
        }
        let a = self.abs().bits;
        let b = rhs.abs().bits;
        if self.is_sign_negative() {
            if rhs.is_sign_negative() {
                b.le(a)
            } else {
                true
            }
        } else {
            if rhs.is_sign_negative() {
                a.le(T::UInt::zero()) && b.le(T::UInt::zero())
            } else {
                a.le(b)
            }
        }
    }

    /// `self > rhs`; false if either is not a number.
    pub fn gt(self, rhs: Self) -> (b: bool)
        ensures
            b == rhs.spec_lt(self),
    {
        rhs.lt(self)
    }

    /// `self >= rhs`; false if either is not a number.
    pub fn ge(self, rhs: Self) -> (b: bool)
        ensures
            b == rhs.spec_le(self),
    {
        rhs.le(self)
    }

    /// Conversion to the nearest word: a number midway between two words goes
    /// to the word away from zero, a number beyond the words to the last of
    /// them, a negative number or a NaN to zero.
    pub fn round_as_uint(self) -> (u: T::UInt)
        ensures
            u.value() == rounded_pattern(self.bits(), T::UInt::spec_bits()),
    {
        proof {
            T::UInt::lemma_format();
            self.lemma_bits_fit();
            lemma_sign_mask_is_top_bit(T::UInt::spec_bits());
            lemma_magnitude_is_low_bits(self.bits(), T::UInt::spec_bits());
        }
        if self.is_sign_negative() || self.is_nan() {
            return T::UInt::zero();
        }
        let width = T::UInt::bits();
        let significand_bits = T::UInt::significand_bits();
        // The exponent of one half.
        let half: u32 = if width == 32 {
            126
        } else {
            1022
        };
        proof {
            let (w, sig, v) = (width, significand_bits, self.bits());
            assert((w == 32 && sig == 23 || w == 64 && sig == 52) && v < sign_mask(w) ==> (v
                >> sig) < 0x800 && ((1u64 << sig) & low_mask(w)) == 1u64 << sig && (1u64 << sig)
                >= 1 && ((1u64 << sig) - 1) as u64 == low_mask(sig)) by (bit_vector);
        }
        let exponent = self.bits.shr(significand_bits).as_usize() as u32;
        let hidden_bit = T::UInt::one().shl(significand_bits);
        let significand = self.bits.bitand(hidden_bit.sub(T::UInt::one())).bitxor(hidden_bit);
        proof {
            let (w, sig, v) = (width, significand_bits, self.bits());
            let (e, m) = (exponent, significand.value());
            assert((w == 32 && sig == 23 && half == 126 || w == 64 && sig == 52 && half == 1022)
                && v < sign_mask(w) && e == v >> sig && m == (v & low_mask(sig)) ^ (1u64 << sig)
                ==> {
                &&& m == (v & low_mask(sig)) | (1u64 << sig)
                &&& m < (1u64 << ((sig + 1) as u32))
                &&& (half <= e && e <= half + sig ==> {
                    let places = (half + 1 + sig - e) as u32;
                    &&& ((1u64 << ((places - 1) as u32)) & low_mask(w)) == 1u64 << ((places
                        - 1) as u32)
                    &&& m + (1u64 << ((places - 1) as u32)) <= low_mask(w)
                })
                &&& (half + sig < e && e <= half + w ==> {
                    let places = (e - half - 1 - sig) as u32;
                    (m << places) & low_mask(w) == m << places
                })
            }) by (bit_vector);
        }
        if exponent < half {
            // Below one half.
            T::UInt::zero()
        } else if exponent > half + width {
            // Beyond the words.
            T::UInt::max()
        } else if exponent > half + significand_bits {
            // An integer.
            significand.shl(exponent - half - 1 - significand_bits)
        } else {
            let places = half + 1 + significand_bits - exponent;
            significand.add(T::UInt::one().shl(places - 1)).shr(places)
        }
    }

    /// Conversion of a 32-bit integer to the nearest number.
    pub open spec fn spec_cast_u32(u: u32) -> Self {
        T::spec_cast_u32(u)
    }

    /// Conversion of a 32-bit integer to the nearest number.
    pub fn cast_u32(u: u32) -> (r: Self)
        ensures
            r == Self::spec_cast_u32(u),
    {
        T::cast_u32(u)
    }

    /// Conversion of an index to the nearest number.
    pub open spec fn spec_cast_usize(u: usize) -> Self {
        T::spec_cast_usize(u)
    }

    /// Conversion of an index to the nearest number.
    pub fn cast_usize(u: usize) -> (r: Self)
        ensures
            r == Self::spec_cast_usize(u),
    {
        T::cast_usize(u)
    }

    /// Conversion of a word to the nearest number.
    pub open spec fn spec_cast_uint(u: u64) -> Self {
        T::spec_cast_uint(u)
    }

    /// Conversion of a word to the nearest number.
    pub fn cast_uint(u: T::UInt) -> (r: Self)
        ensures
            r == Self::spec_cast_uint(u.value()),
    {
        T::cast_uint(u)
    }

    /// `self + rhs`.
    pub open spec fn spec_add(self, rhs: Self) -> Self {
        T::spec_add(self, rhs)
    }

    /// The operation of that name, carried out by the format.
    pub fn add(self, rhs: Self) -> (r: Self)
        ensures
            r == self.spec_add(rhs),
    {
        T::add(self, rhs)
    }

    /// `self - rhs`.
    pub open spec fn spec_sub(self, rhs: Self) -> Self {
        T::spec_sub(self, rhs)
    }

    /// The operation of that name, carried out by the format.
    pub fn sub(self, rhs: Self) -> (r: Self)
        ensures
            r == self.spec_sub(rhs),
    {
        T::sub(self, rhs)
    }

    /// `self * rhs`.
    pub open spec fn spec_mul(self, rhs: Self) -> Self {
        T::spec_mul(self, rhs)
    }

    /// The operation of that name, carried out by the format.
    pub fn mul(self, rhs: Self) -> (r: Self)
        ensures
            r == self.spec_mul(rhs),
    {
        T::mul(self, rhs)
    }

    /// `self / rhs`.
    pub open spec fn spec_div(self, rhs: Self) -> Self {
        T::spec_div(self, rhs)
    }

    /// The operation of that name, carried out by the format.
    pub fn div(self, rhs: Self) -> (r: Self)
        ensures
            r == self.spec_div(rhs),
    {
        T::div(self, rhs)
    }

    /// The smaller of two numbers; if one is not a number, the other.
    pub fn min(self, other: Self) -> (m: Self)
        ensures
            m == self.spec_min(other),
    {
        if self.is_nan() {
            other
        } else if other.lt(self) {
            other
        } else {
            self
        }
    }

    /// The larger of two numbers; if one is not a number, the other.
    pub fn max(self, other: Self) -> (m: Self)
        ensures
            m == self.spec_max(other),
    {
        if self.is_nan() {
            other
        } else if self.lt(other) {
            other
        } else {
            self
        }
    }

    /// Square root.
    pub open spec fn spec_sqrt(self) -> Self {
        T::spec_sqrt(self)
    }

    /// The operation of that name, carried out by the format.
    pub fn sqrt(self) -> (r: Self)
        ensures
            r == self.spec_sqrt(),
    {
        T::sqrt(self)
    }

    /// Tangent.
    pub open spec fn spec_tan(self) -> Self {
        T::spec_tan(self)
    }

    /// The operation of that name, carried out by the format.
    pub fn tan(self) -> (r: Self)
        ensures
            r == self.spec_tan(),
    {
        T::tan(self)
    }

    /// Arctangent.
    pub open spec fn spec_atan(self) -> Self {
        T::spec_atan(self)
    }

    /// The operation of that name, carried out by the format.
    pub fn atan(self) -> (r: Self)
        ensures
            r == self.spec_atan(),
    {
        T::atan(self)
    }

    /// Natural logarithm.
    pub open spec fn spec_ln(self) -> Self {
        T::spec_ln(self)
    }

    /// The operation of that name, carried out by the format.
    pub fn ln(self) -> (r: Self)
        ensures
            r == self.spec_ln(),
    {
        T::ln(self)
    }

    /// Base 2 logarithm.
    pub open spec fn spec_log2(self) -> Self {
        T::spec_log2(self)
    }

    /// The operation of that name, carried out by the format.
    pub fn log2(self) -> (r: Self)
        ensures
            r == self.spec_log2(),
    {
        T::log2(self)
    }

    /// Exponential function.
    pub open spec fn spec_exp(self) -> Self {
        T::spec_exp(self)
    }

    /// The operation of that name, carried out by the format.
    pub fn exp(self) -> (r: Self)
        ensures
            r == self.spec_exp(),
    {
        T::exp(self)
    }

    /// The number raised to a power.
    pub open spec fn spec_powf(self, exponent: Self) -> Self {
        T::spec_powf(self, exponent)
    }

    /// The operation of that name, carried out by the format.
    pub fn powf(self, exponent: Self) -> (r: Self)
        ensures
            r == self.spec_powf(exponent),
    {
        T::powf(self, exponent)
    }

    /// Error function.
    pub open spec fn spec_erf(self) -> Self {
        T::spec_erf(self)
    }

    /// The operation of that name, carried out by the format.
    pub fn erf(self) -> (r: Self)
        ensures
            r == self.spec_erf(),
    {
        T::erf(self)
    }

    /// Complementary error function.
    pub open spec fn spec_erfc(self) -> Self {
        T::spec_erfc(self)
    }

    /// The operation of that name, carried out by the format.
    pub fn erfc(self) -> (r: Self)
        ensures
            r == self.spec_erfc(),
    {
        T::erfc(self)
    }

    /// `self * a + b`, fused where the target has the instruction.
    pub open spec fn spec_mul_add(self, a: Self, b: Self) -> Self {
        T::spec_mul_add(self, a, b)
    }

    /// The operation of that name, carried out by the format.
    pub fn mul_add(self, a: Self, b: Self) -> (r: Self)
        ensures
            r == self.spec_mul_add(a, b),
    {
        T::mul_add(self, a, b)
    }

    /// The number `k / 2^(SIGNIFICAND_BITS + 1)`, for a numerator below the
    /// denominator. The numerator has no more bits than a significand with
    /// its hidden bit, so the number is exact: the numerator is moved up to
    /// the place of the hidden bit and the exponent lowered by as much.
    pub fn from_numerator(k: T::UInt) -> (x: Self)
        requires
            k.value() < (1u64 << ((T::UInt::spec_significand_bits() + 1) as u32)),
        ensures
            encodes_numerator(x.bits(), k.value(), T::UInt::spec_bits()),
            x.is_in_unit_interval(),
    {
        proof {
            T::UInt::lemma_format();
            lemma_sign_mask_is_top_bit(T::UInt::spec_bits());
        }
        if k.le(T::UInt::zero()) {
            return Self::zero();
        }
        let significand_bits = T::UInt::significand_bits();
        let hidden_bit = T::UInt::one().shl(significand_bits);
        let mut m = k;
        let mut e: u32 = 0;
        proof {
            let w = T::UInt::spec_bits();
            let sig = significand_bits;
            let kv = k.value();
            assert((w == 32 && sig == 23 || w == 64 && sig == 52) && kv >= 1 ==> ((1u64 << sig)
                & low_mask(w)) == 1u64 << sig && kv << 0u32 == kv && kv >= 1u64 << 0u32)
                by (bit_vector);
        }
        while hidden_bit.gt(m)
            invariant
                T::UInt::spec_bits() == 32 && significand_bits == 23 || T::UInt::spec_bits() == 64
                    && significand_bits == 52,
                hidden_bit.value() == 1u64 << significand_bits,
                e <= significand_bits,
                m.value() == k.value() << e,
                m.value() >= (1u64 << e),
                m.value() < (1u64 << ((significand_bits + 1) as u32)),
            decreases significand_bits - e,
        {
            proof {
                let w = T::UInt::spec_bits();
                let sig = significand_bits;
                let (kv, mv) = (k.value(), m.value());
                assert((w == 32 && sig == 23 || w == 64 && sig == 52) && e <= sig && mv == kv << e
                    && mv >= (1u64 << e) && mv < (1u64 << sig) ==> {
                    let doubled = (mv << 1u32) & low_mask(w);
                    &&& e < sig
                    &&& doubled == kv << ((e + 1) as u32)
                    &&& doubled >= (1u64 << ((e + 1) as u32))
                    &&& doubled < (1u64 << ((sig + 1) as u32))
                }) by (bit_vector);
            }
            m = m.shl(1);
            e = e + 1;
        }
        // The exponent of one half, lowered by the places that the numerator
        // was moved up.
        let exponent = T::UInt::select(126, 1022).sub(T::UInt::select(e, e as u64));
        let fraction = m.sub(hidden_bit);
        proof {
            let w = T::UInt::spec_bits();
            let sig = significand_bits;
            let (kv, mv, ev) = (k.value(), m.value(), exponent.value());
            assert((w == 32 && sig == 23 && ev == 126 - e || w == 64 && sig == 52 && ev == 1022
                - e) && e <= sig && kv >= 1 && mv == kv << e && mv >= (1u64 << sig) && mv < (1u64
                << ((sig + 1) as u32)) ==> {
                let bits = ((ev << sig) & low_mask(w)) ^ ((mv - (1u64 << sig)) as u64);
                &&& encodes_numerator(bits, kv, w)
                &&& bits < one_pattern(w)
            }) by (bit_vector);
        }
        Number { bits: exponent.shl(significand_bits).bitxor(fraction) }
    }

    /// The uniform number that is read in the random word `r`: its highest
    /// `SIGNIFICAND_BITS + 1` bits as the numerator, over
    /// `2^(SIGNIFICAND_BITS + 1)`.
    pub fn from_word(r: T::UInt) -> (x: Self)
        ensures
            encodes_numerator(
                x.bits(),
                spec_numerator_of(r.value(), T::UInt::spec_bits()),
                T::UInt::spec_bits(),
            ),
            x.is_in_unit_interval(),
    {
        Self::from_numerator(numerator_of(r))
    }

    /// Draws a uniform number in `[0, 1)`: the number that is read in a
    /// random word (see [`from_word`](#method.from_word)).
    pub fn gen<R: RngCore + ?Sized>(rng: &mut R) -> (x: Self)
        ensures
            x.is_in_unit_interval(),
            exists|r: u64| #[trigger]
                encodes_numerator(
                    x.bits(),
                    spec_numerator_of(r, T::UInt::spec_bits()),
                    T::UInt::spec_bits(),
                ),
    {
        let r = T::UInt::gen(rng);
        let x = Self::from_word(r);
        assert(encodes_numerator(
            x.bits(),
            spec_numerator_of(r.value(), T::UInt::spec_bits()),
            T::UInt::spec_bits(),
        ));
        x
    }
}

/// Whether the pattern `bits` is that of the number `k / 2^(SIGNIFICAND_BITS
/// + 1)` for a numerator `k` below the denominator: for zero the pattern is
/// zero; else the sign is clear, the exponent lies below that of one, and the
/// significand with its hidden bit is the numerator moved up by one place
/// less than the exponent lies below that of one.
pub open spec fn encodes_numerator(bits: u64, k: u64, width: u32) -> bool {
    let sig = select_pattern(width, 23, 52) as u32;
    let bias = select_pattern(width, 127, 1023);
    let exponent = bits >> sig;
    let fraction = bits & low_mask(sig);
    if k == 0 {
        bits == 0
    } else {
        &&& exponent < bias
        &&& bias - 1 - exponent <= sig
        &&& fraction + (1u64 << sig) == k << ((bias - 1 - exponent) as u32)
    }
}

/// Rounding goes to the nearest word, and up from midway. For the pattern `v`
/// of a number that is at least one half and has digits after the point, let
/// `m` be the significand with its hidden bit and `p` the number of its
/// digits after the point, so that the number is `m / 2^p`. The word `r` that
/// it is rounded to is then the one with `r <= m / 2^p + 1/2 < r + 1`: here
/// both sides are multiplied by `2^p`. A number with no digit after the point
/// is rounded to itself, where it is a word.
pub proof fn lemma_rounded_is_nearest(v: u64, width: u32)
    by (bit_vector)
    requires
        width == 32 || width == 64,
        v < sign_mask(width),
        !is_nan_pattern(v, width),
    ensures
        ({
            let sig = select_pattern(width, 23, 52) as u32;
            let half = select_pattern(width, 126, 1022) as u32;
            let exponent = (v >> sig) as u32;
            let m = (v & low_mask(sig)) | (1u64 << sig);
            let r = rounded_pattern(v, width);
            &&& exponent < half ==> r == 0
            &&& half <= exponent <= half + sig ==> {
                let p = (half + 1 + sig - exponent) as u32;
                &&& r <= (1u64 << sig)
                &&& (r << p) <= m + (1u64 << ((p - 1) as u32))
                &&& m + (1u64 << ((p - 1) as u32)) < ((r + 1) as u64) << p
            }
            &&& half + sig < exponent <= half + width ==> {
                let q = (exponent - half - 1 - sig) as u32;
                r == m << q
            }
        }),
{
}

/// The number two is greater than zero.
pub proof fn lemma_two_is_positive(width: u32)
    by (bit_vector)
    requires
        width == 32 || width == 64,
    ensures
        lt_pattern(0, select_pattern(width, 0x4000_0000, 0x4000_0000_0000_0000), width),
{
}

/// The sign mask is the word one shifted to the top, and the patterns without
/// sign are those below it.
pub proof fn lemma_sign_mask_is_top_bit(width: u32)
    by (bit_vector)
    requires
        width == 32 || width == 64,
    ensures
        ((1u64 << ((width - 1) as u32)) & low_mask(width)) == sign_mask(width),
        low_mask(width) >> 1u32 == low_mask((width - 1) as u32),
        sign_mask(width) == low_mask((width - 1) as u32) + 1,
        sign_mask(width) == select_pattern(width, 0x8000_0000, 0x8000_0000_0000_0000),
{
}

/// The magnitude of a pattern is the pattern with the sign bit cleared.
pub proof fn lemma_magnitude_is_low_bits(v: u64, width: u32)
    by (bit_vector)
    requires
        width == 32 || width == 64,
        v <= low_mask(width),
    ensures
        v & (low_mask(width) >> 1u32) == magnitude(v, width),
        (v > (low_mask(width) >> 1u32)) == (v >= sign_mask(width)),
        magnitude(v, width) < sign_mask(width),
        sign_mask(width) == select_pattern(width, 0x8000_0000, 0x8000_0000_0000_0000),
{
}

} // verus!
