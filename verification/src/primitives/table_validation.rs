//! Partition size validity marker traits.
//!
//! A sampler takes the index of a cell, and with symmetry a sign, from the top
//! of each random word and keeps the rest as the fraction. A partition size is
//! valid for a word type when this leaves the fraction at least 24 bits of a
//! 32-bit word, or at least 52 bits of a 64-bit word: in either case no fewer
//! than the significand of the floating-point format of that width stores.

use super::layout::{fraction_bits, supported};
use super::partition::{Partition, P1024, P128, P16, P2048, P256, P32, P4096, P512, P64};
use crate::num::UInt;
use vstd::prelude::*;

verus! {

/// Fewest bits that a sampler on words of the given width may leave to the
/// fraction.
pub open spec fn min_fraction_bits(word_bits: u32) -> u32 {
    if word_bits == 32 {
        24
    } else {
        52
    }
}

/// Whether a partition of `2^partition_bits` sub-intervals is valid for
/// samplers on words of `word_bits` bits, with or without symmetry.
pub open spec fn valid_size(word_bits: u32, partition_bits: u32, symmetric: bool) -> bool {
    supported(word_bits, partition_bits) && fraction_bits(word_bits, partition_bits, symmetric)
        >= min_fraction_bits(word_bits)
}

/// The valid sizes, written out: up to 256 sub-intervals on 32-bit words and
/// every size on 64-bit words; with symmetry, one size fewer on each.
pub proof fn lemma_valid_sizes(word_bits: u32, partition_bits: u32, symmetric: bool)
    requires
        supported(word_bits, partition_bits),
    ensures
        valid_size(word_bits, partition_bits, symmetric) <==> partition_bits <= (if word_bits
            == 32 {
            8int
        } else {
            12int
        }) - (if symmetric {
            1int
        } else {
            0int
        }),
{
}

/// Partition size validity marker trait for distributions without symmetry.
pub trait ValidPartitionSize<U: UInt>: Partition {
    proof fn lemma_valid()
        ensures
            valid_size(U::spec_bits(), Self::spec_bits(), false),
    ;
}

/// Partition size validity marker trait for symmetric distributions.
pub trait ValidSymmetricPartitionSize<U: UInt>: Partition {
    proof fn lemma_valid_symmetric()
        ensures
            valid_size(U::spec_bits(), Self::spec_bits(), true),
    ;
}

/// With a valid partition size, the fraction of a sampler without symmetry
/// has at least as many bits as the significand of the format stores.
pub proof fn lemma_fraction_covers_significand<P: ValidPartitionSize<U>, U: UInt>()
    ensures
        fraction_bits(U::spec_bits(), P::spec_bits(), false) >= U::spec_significand_bits(),
{
    P::lemma_valid();
    U::lemma_format();
}

/// With a valid partition size, the fraction of a symmetric sampler has at
/// least as many bits as the significand of the format stores.
pub proof fn lemma_symmetric_fraction_covers_significand<
    P: ValidSymmetricPartitionSize<U>,
    U: UInt,
>()
    ensures
        fraction_bits(U::spec_bits(), P::spec_bits(), true) >= U::spec_significand_bits(),
{
    P::lemma_valid_symmetric();
    U::lemma_format();
}

// Valid partition sizes for 32-bit words (distributions without symmetry).
impl ValidPartitionSize<u32> for P16 {
    proof fn lemma_valid() {
    }
}

impl ValidPartitionSize<u32> for P32 {
    proof fn lemma_valid() {
    }
}

impl ValidPartitionSize<u32> for P64 {
    proof fn lemma_valid() {
    }
}

impl ValidPartitionSize<u32> for P128 {
    proof fn lemma_valid() {
    }
}

impl ValidPartitionSize<u32> for P256 {
    proof fn lemma_valid() {
    }
}

// Valid partition sizes for 64-bit words (distributions without symmetry).
impl ValidPartitionSize<u64> for P16 {
    proof fn lemma_valid() {
    }
}

impl ValidPartitionSize<u64> for P32 {
    proof fn lemma_valid() {
    }
}

impl ValidPartitionSize<u64> for P64 {
    proof fn lemma_valid() {
    }
}

impl ValidPartitionSize<u64> for P128 {
    proof fn lemma_valid() {
    }
}

impl ValidPartitionSize<u64> for P256 {
    proof fn lemma_valid() {
    }
}

impl ValidPartitionSize<u64> for P512 {
    proof fn lemma_valid() {
    }
}

impl ValidPartitionSize<u64> for P1024 {
    proof fn lemma_valid() {
    }
}

impl ValidPartitionSize<u64> for P2048 {
    proof fn lemma_valid() {
    }
}

impl ValidPartitionSize<u64> for P4096 {
    proof fn lemma_valid() {
    }
}

// Valid partition sizes for 32-bit words (symmetric distributions).
impl ValidSymmetricPartitionSize<u32> for P16 {
    proof fn lemma_valid_symmetric() {
    }
}

impl ValidSymmetricPartitionSize<u32> for P32 {
    proof fn lemma_valid_symmetric() {
    }
}

impl ValidSymmetricPartitionSize<u32> for P64 {
    proof fn lemma_valid_symmetric() {
    }
}

impl ValidSymmetricPartitionSize<u32> for P128 {
    proof fn lemma_valid_symmetric() {
    }
}

// Valid partition sizes for 64-bit words (symmetric distributions).
impl ValidSymmetricPartitionSize<u64> for P16 {
    proof fn lemma_valid_symmetric() {
    }
}

impl ValidSymmetricPartitionSize<u64> for P32 {
    proof fn lemma_valid_symmetric() {
    }
}

impl ValidSymmetricPartitionSize<u64> for P64 {
    proof fn lemma_valid_symmetric() {
    }
}

impl ValidSymmetricPartitionSize<u64> for P128 {
    proof fn lemma_valid_symmetric() {
    }
}

impl ValidSymmetricPartitionSize<u64> for P256 {
    proof fn lemma_valid_symmetric() {
    }
}

impl ValidSymmetricPartitionSize<u64> for P512 {
    proof fn lemma_valid_symmetric() {
    }
}

impl ValidSymmetricPartitionSize<u64> for P1024 {
    proof fn lemma_valid_symmetric() {
    }
}

impl ValidSymmetricPartitionSize<u64> for P2048 {
    proof fn lemma_valid_symmetric() {
    }
}

} // verus!
