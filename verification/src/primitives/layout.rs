//! How a sampler reads one random word.
//!
//! The `BITS` most significant bits of the word, after a leading sign bit in
//! the symmetric case, select a cell of the table. All the remaining low bits
//! form the fraction, an integer that says where in the cell the sample falls.
//! Index, fraction and sign are disjoint fields that together make up the
//! whole word, so for a uniform word they are uniform and independent.

use super::partition::Partition;
use crate::num::{low_mask, sign_extended_shift, sign_mask, sign_toggled, UInt};
use vstd::prelude::*;

verus! {

/// Number of low bits that a word of `word_bits` bits leaves to the fraction
/// once the index, and in the symmetric case the sign, are taken.
pub open spec fn fraction_bits(word_bits: u32, partition_bits: u32, symmetric: bool) -> u32 {
    (word_bits - partition_bits - if symmetric {
        1int
    } else {
        0int
    }) as u32
}

/// The fraction field of the word `r`.
pub open spec fn fraction_of(r: u64, fraction_bits: u32) -> u64 {
    r & low_mask(fraction_bits)
}

/// The index field of the word `r`.
pub open spec fn index_of(r: u64, fraction_bits: u32, partition_bits: u32) -> u64 {
    (r >> fraction_bits) & low_mask(partition_bits)
}

/// The sign field of the word `r`, kept in place as the top bit.
pub open spec fn sign_of(r: u64, word_bits: u32) -> u64 {
    r & sign_mask(word_bits)
}

/// Whether the widths describe a word of one of the two supported formats and
/// a partition of one of the supported sizes.
pub open spec fn supported(word_bits: u32, partition_bits: u32) -> bool {
    (word_bits == 32 || word_bits == 64) && 4 <= partition_bits <= 12
}

/// The fields of one random word.
pub struct Parts<U: UInt> {
    /// Index of the cell.
    pub index: usize,
    /// Position within the cell.
    pub fraction: U,
    /// The sign mask if the sample is to be reflected, else zero.
    pub sign: U,
}

/// The largest fraction: the word with all fraction bits set.
pub fn max_switch<P: Partition, U: UInt>(symmetric: bool) -> (m: U)
    ensures
        m.value() == low_mask(fraction_bits(U::spec_bits(), P::spec_bits(), symmetric)),
{
    proof {
        U::lemma_format();
        P::lemma_size();
    }
    let sign_bits: u32 = if symmetric {
        1
    } else {
        0
    };
    let shift = U::bits() - P::bits() - sign_bits;
    let top = U::one().shl(shift);
    proof {
        let w = U::spec_bits();
        assert((w == 32 || w == 64) && shift < w ==> ((1u64 << shift) & low_mask(w)) == 1u64
            << shift && (1u64 << shift) >= 1) by (bit_vector);
    }
    top.sub(U::one())
}

/// Splits a word for a sampler without symmetry: index on top, fraction
/// below, no sign.
pub fn split<P: Partition, U: UInt>(r: U) -> (parts: Parts<U>)
    ensures
        parts.index < P::spec_size(),
        parts.index == index_of(
            r.value(),
            fraction_bits(U::spec_bits(), P::spec_bits(), false),
            P::spec_bits(),
        ),
        parts.fraction.value() == fraction_of(
            r.value(),
            fraction_bits(U::spec_bits(), P::spec_bits(), false),
        ),
        parts.sign.value() == 0,
{
    proof {
        U::lemma_format();
        P::lemma_size();
        r.lemma_value_fits();
    }
    let u_mask = max_switch::<P, U>(false);
    let fraction = r.bitand(u_mask);
    let shifted = r.shr(U::bits() - P::bits());
    proof {
        let w = U::spec_bits();
        let p = P::spec_bits();
        let f = fraction_bits(w, p, false);
        let v = r.value();
        assert(supported(w, p) && f == w - p && v <= low_mask(w) ==> (v >> f) & low_mask(p) == v
            >> f && (v >> f) < (1u64 << p) && (1u64 << p) <= 4096) by (bit_vector);
    }
    Parts { index: shifted.as_usize(), fraction, sign: U::zero() }
}

/// Splits a word for a sampler with symmetry: sign on top, then the index,
/// fraction below.
pub fn split_symmetric<P: Partition, U: UInt>(r: U) -> (parts: Parts<U>)
    ensures
        parts.index < P::spec_size(),
        parts.index == index_of(
            r.value(),
            fraction_bits(U::spec_bits(), P::spec_bits(), true),
            P::spec_bits(),
        ),
        parts.fraction.value() == fraction_of(
            r.value(),
            fraction_bits(U::spec_bits(), P::spec_bits(), true),
        ),
        parts.sign.value() == sign_of(r.value(), U::spec_bits()),
{
    proof {
        U::lemma_format();
        P::lemma_size();
        r.lemma_value_fits();
    }
    proof {
        let w = U::spec_bits();
        let p = P::spec_bits();
        assert(supported(w, p) ==> ((1u64 << p) & low_mask(w)) == 1u64 << p && (1u64 << p) >= 1
            && ((1u64 << p) - 1) as u64 == low_mask(p) && ((1u64 << ((w - 1) as u32)) & low_mask(
            w,
        )) == sign_mask(w)) by (bit_vector);
    }
    let u_mask = max_switch::<P, U>(true);
    let i_mask = U::one().shl(P::bits()).sub(U::one());
    let s_mask = U::one().shl(U::bits() - 1);
    let fraction = r.bitand(u_mask);
    let shifted = r.arithmetic_right_shift(U::bits() - P::bits() - 1);
    let index = shifted.bitand(i_mask);
    let sign = shifted.bitand(s_mask);
    proof {
        let w = U::spec_bits();
        let p = P::spec_bits();
        let f = fraction_bits(w, p, true);
        let v = r.value();
        let a = shifted.value();
        assert(supported(w, p) && f == w - p - 1 && v <= low_mask(w) && a == sign_extended_shift(
            v,
            w,
            f,
        ) ==> a & low_mask(p) == (v >> f) & low_mask(p) && a & sign_mask(w) == v & sign_mask(w)
            && (a & low_mask(p)) < (1u64 << p) && (1u64 << p) <= 4096) by (bit_vector);
    }
    Parts { index: index.as_usize(), fraction, sign }
}

/// The sign field that a word has under the given layout: none without
/// symmetry.
pub open spec fn sign_field(r: u64, word_bits: u32, symmetric: bool) -> u64 {
    if symmetric {
        sign_of(r, word_bits)
    } else {
        0
    }
}

/// Each field stays within its range: the index selects one of the `N`
/// cells, never the end node, and the sign is either the sign mask or zero.
pub proof fn lemma_fields_in_range(r: u64, word_bits: u32, partition_bits: u32, symmetric: bool)
    by (bit_vector)
    requires
        supported(word_bits, partition_bits),
        r <= low_mask(word_bits),
    ensures
        index_of(r, fraction_bits(word_bits, partition_bits, symmetric), partition_bits) < (1u64
            << partition_bits),
        fraction_of(r, fraction_bits(word_bits, partition_bits, symmetric)) <= low_mask(
            fraction_bits(word_bits, partition_bits, symmetric),
        ),
        sign_field(r, word_bits, symmetric) == 0 || (symmetric && sign_field(
            r,
            word_bits,
            symmetric,
        ) == sign_mask(word_bits)),
{
}

/// The fields make up the whole word: no bit of it is left unused and none is
/// used twice.
pub proof fn lemma_fields_make_up_the_word(
    r: u64,
    word_bits: u32,
    partition_bits: u32,
    symmetric: bool,
)
    by (bit_vector)
    requires
        supported(word_bits, partition_bits),
        r <= low_mask(word_bits),
    ensures
        r == sign_field(r, word_bits, symmetric) + (index_of(
            r,
            fraction_bits(word_bits, partition_bits, symmetric),
            partition_bits,
        ) << fraction_bits(word_bits, partition_bits, symmetric)) + fraction_of(
            r,
            fraction_bits(word_bits, partition_bits, symmetric),
        ),
{
}

/// The word that is made of the given fields.
pub open spec fn word_of(
    index: u64,
    fraction: u64,
    negative: bool,
    word_bits: u32,
    partition_bits: u32,
    symmetric: bool,
) -> u64 {
    (if negative {
        sign_mask(word_bits)
    } else {
        0
    }) | (index << fraction_bits(word_bits, partition_bits, symmetric)) | fraction
}

/// Every combination of fields comes from a word: for each index, fraction and
/// sign in range, the word made of them splits back into them. With the law
/// above this makes the split a one-to-one correspondence, so a uniform word
/// gives a uniform index, a uniform fraction and a fair sign, independent of
/// one another.
pub proof fn lemma_every_field_combination_occurs(
    index: u64,
    fraction: u64,
    negative: bool,
    word_bits: u32,
    partition_bits: u32,
    symmetric: bool,
)
    by (bit_vector)
    requires
        supported(word_bits, partition_bits),
        index <= low_mask(partition_bits),
        fraction <= low_mask(fraction_bits(word_bits, partition_bits, symmetric)),
        negative ==> symmetric,
    ensures
        word_of(index, fraction, negative, word_bits, partition_bits, symmetric) <= low_mask(
            word_bits,
        ),
        index_of(
            word_of(index, fraction, negative, word_bits, partition_bits, symmetric),
            fraction_bits(word_bits, partition_bits, symmetric),
            partition_bits,
        ) == index,
        fraction_of(
            word_of(index, fraction, negative, word_bits, partition_bits, symmetric),
            fraction_bits(word_bits, partition_bits, symmetric),
        ) == fraction,
        sign_field(
            word_of(index, fraction, negative, word_bits, partition_bits, symmetric),
            word_bits,
            symmetric,
        ) == (if negative {
            sign_mask(word_bits)
        } else {
            0
        }),
{
}

/// Reflection symmetry of the symmetric layout: toggling the top bit of a word
/// toggles the sign field and changes neither the index nor the fraction. The
/// words thus pair up, and the two words of a pair select the same point of the
/// same cell on opposite sides of the origin.
pub proof fn lemma_top_bit_only_sets_the_sign(r: u64, word_bits: u32, partition_bits: u32)
    by (bit_vector)
    requires
        supported(word_bits, partition_bits),
        r <= low_mask(word_bits),
    ensures
        r ^ sign_mask(word_bits) <= low_mask(word_bits),
        r ^ sign_mask(word_bits) == sign_toggled(r, word_bits),
        index_of(
            r ^ sign_mask(word_bits),
            fraction_bits(word_bits, partition_bits, true),
            partition_bits,
        ) == index_of(r, fraction_bits(word_bits, partition_bits, true), partition_bits),
        fraction_of(r ^ sign_mask(word_bits), fraction_bits(word_bits, partition_bits, true))
            == fraction_of(r, fraction_bits(word_bits, partition_bits, true)),
        sign_of(r ^ sign_mask(word_bits), word_bits) == sign_of(r, word_bits) ^ sign_mask(
            word_bits,
        ),
        sign_of(r ^ sign_mask(word_bits), word_bits) != sign_of(r, word_bits),
{
}

} // verus!
