//! Interval partitions and related data structures.

use super::storage::Datum;
use crate::num::{Float, Number, UInt};
use std::marker::PhantomData;
use vstd::prelude::*;

verus! {

/// Marker trait for the partition of an interval into `N = 2^BITS`
/// sub-intervals.
pub trait Partition: Sized {
    /// Base-2 logarithm of the number of sub-intervals.
    spec fn spec_bits() -> u32;

    /// Number of sub-intervals.
    spec fn spec_size() -> usize;

    /// The size is a power of two between 16 and 4096.
    proof fn lemma_size()
        ensures
            4 <= Self::spec_bits() <= 12,
            Self::spec_size() == 1u64 << Self::spec_bits(),
            16 <= Self::spec_size() <= 4096,
    ;

    /// Base-2 logarithm of the number of sub-intervals.
    fn bits() -> (b: u32)
        ensures
            b == Self::spec_bits(),
    ;

    /// Number of sub-intervals.
    fn size() -> (n: usize)
        ensures
            n == Self::spec_size(),
    ;
}

/// The sizes of the partitions as powers of two.
proof fn lemma_powers_of_two()
    ensures
        1u64 << 4u32 == 16,
        1u64 << 5u32 == 32,
        1u64 << 6u32 == 64,
        1u64 << 7u32 == 128,
        1u64 << 8u32 == 256,
        1u64 << 9u32 == 512,
        1u64 << 10u32 == 1024,
        1u64 << 11u32 == 2048,
        1u64 << 12u32 == 4096,
{
    assert(1u64 << 4u32 == 16 && 1u64 << 5u32 == 32 && 1u64 << 6u32 == 64 && 1u64 << 7u32 == 128
        && 1u64 << 8u32 == 256 && 1u64 << 9u32 == 512 && 1u64 << 10u32 == 1024 && 1u64 << 11u32
        == 2048 && 1u64 << 12u32 == 4096) by (bit_vector);
}

/// A partition with 16 sub-intervals.
#[derive(Copy, Clone)]
pub struct P16;

impl Partition for P16 {
    open spec fn spec_bits() -> u32 {
        4
    }

    open spec fn spec_size() -> usize {
        16
    }

    proof fn lemma_size() {
        lemma_powers_of_two();
    }

    fn bits() -> (b: u32) {
        4
    }

    fn size() -> (n: usize) {
        16
    }
}

/// A partition with 32 sub-intervals.
#[derive(Copy, Clone)]
pub struct P32;

impl Partition for P32 {
    open spec fn spec_bits() -> u32 {
        5
    }

    open spec fn spec_size() -> usize {
        32
    }

    proof fn lemma_size() {
        lemma_powers_of_two();
    }

    fn bits() -> (b: u32) {
        5
    }

    fn size() -> (n: usize) {
        32
    }
}

/// A partition with 64 sub-intervals.
#[derive(Copy, Clone)]
pub struct P64;

impl Partition for P64 {
    open spec fn spec_bits() -> u32 {
        6
    }

    open spec fn spec_size() -> usize {
        64
    }

    proof fn lemma_size() {
        lemma_powers_of_two();
    }

    fn bits() -> (b: u32) {
        6
    }

    fn size() -> (n: usize) {
        64
    }
}

/// A partition with 128 sub-intervals.
#[derive(Copy, Clone)]
pub struct P128;

impl Partition for P128 {
    open spec fn spec_bits() -> u32 {
        7
    }

    open spec fn spec_size() -> usize {
        128
    }

    proof fn lemma_size() {
        lemma_powers_of_two();
    }

    fn bits() -> (b: u32) {
        7
    }

    fn size() -> (n: usize) {
        128
    }
}

/// A partition with 256 sub-intervals.
#[derive(Copy, Clone)]
pub struct P256;

impl Partition for P256 {
    open spec fn spec_bits() -> u32 {
        8
    }

    open spec fn spec_size() -> usize {
        256
    }

    proof fn lemma_size() {
        lemma_powers_of_two();
    }

    fn bits() -> (b: u32) {
        8
    }

    fn size() -> (n: usize) {
        256
    }
}

/// A partition with 512 sub-intervals.
#[derive(Copy, Clone)]
pub struct P512;

impl Partition for P512 {
    open spec fn spec_bits() -> u32 {
        9
    }

    open spec fn spec_size() -> usize {
        512
    }

    proof fn lemma_size() {
        lemma_powers_of_two();
    }

    fn bits() -> (b: u32) {
        9
    }

    fn size() -> (n: usize) {
        512
    }
}

/// A partition with 1024 sub-intervals.
#[derive(Copy, Clone)]
pub struct P1024;

impl Partition for P1024 {
    open spec fn spec_bits() -> u32 {
        10
    }

    open spec fn spec_size() -> usize {
        1024
    }

    proof fn lemma_size() {
        lemma_powers_of_two();
    }

    fn bits() -> (b: u32) {
        10
    }

    fn size() -> (n: usize) {
        1024
    }
}

/// A partition with 2048 sub-intervals.
#[derive(Copy, Clone)]
pub struct P2048;

impl Partition for P2048 {
    open spec fn spec_bits() -> u32 {
        11
    }

    open spec fn spec_size() -> usize {
        2048
    }

    proof fn lemma_size() {
        lemma_powers_of_two();
    }

    fn bits() -> (b: u32) {
        11
    }

    fn size() -> (n: usize) {
        2048
    }
}

/// A partition with 4096 sub-intervals.
#[derive(Copy, Clone)]
pub struct P4096;

impl Partition for P4096 {
    open spec fn spec_bits() -> u32 {
        12
    }

    open spec fn spec_size() -> usize {
        4096
    }

    proof fn lemma_size() {
        lemma_powers_of_two();
    }

    fn bits() -> (b: u32) {
        12
    }

    fn size() -> (n: usize) {
        4096
    }
}

/// Array of `N` values defined over the sub-intervals of an `N`-sub-interval
/// partition.
pub struct IntervalArray<P: Partition, T: Float> {
    inner: Vec<Number<T>>,
    phantom: PhantomData<P>,
}

impl<P: Partition, T: Float> View for IntervalArray<P, T> {
    type V = Seq<Number<T>>;

    closed spec fn view(&self) -> Seq<Number<T>> {
        self.inner@
    }
}

impl<P: Partition, T: Float> IntervalArray<P, T> {
    /// An array in which every value is zero.
    pub fn new() -> (array: Self)
        ensures
            array@.len() == P::spec_size(),
            forall|i: int| 0 <= i < array@.len() ==> array@[i].bits() == 0,
    {
        Self::default()
    }

    /// The array has one value for each sub-interval.
    #[verifier::type_invariant]
    pub open spec fn wf(self) -> bool {
        self@.len() == P::spec_size()
    }

    /// Number of values in the array.
    pub fn len(&self) -> (n: usize)
        ensures
            n == P::spec_size(),
            n == self@.len(),
    {
        proof {
            use_type_invariant(self);
        }
        self.inner.len()
    }

    /// The value at position `index`.
    pub fn get(&self, index: usize) -> (value: Number<T>)
        requires
            index < P::spec_size(),
        ensures
            index < self@.len(),
            value == self@[index as int],
    {
        proof {
            use_type_invariant(self);
        }
        self.inner[index]
    }

    /// Replaces the value at position `index`.
    pub fn set(&mut self, index: usize, value: Number<T>)
        requires
            index < P::spec_size(),
        ensures
            index < old(self)@.len(),
            final(self)@ == old(self)@.update(index as int, value),
    {
        proof {
            use_type_invariant(&*self);
        }
        self.inner[index] = value;
    }
}

impl<P: Partition, T: Float> Default for IntervalArray<P, T> {
    /// An array in which every value is zero.
    fn default() -> (array: Self)
        ensures
            array@.len() == P::spec_size(),
            forall|i: int| 0 <= i < array@.len() ==> array@[i].bits() == 0,
    {
        proof {
            P::lemma_size();
        }
        let n = P::size();
        let mut inner: Vec<Number<T>> = Vec::with_capacity(n);
        for i in 0..n
            invariant
                inner.len() == i,
                forall|j: int| 0 <= j < i ==> inner[j].bits() == 0,
        {
            inner.push(Number::zero());
        }
        IntervalArray { inner, phantom: PhantomData }
    }
}

/// Array of `N + 1` values defined over the nodes of an `N`-sub-interval
/// partition.
pub struct NodeArray<P: Partition, T: Float> {
    inner: Vec<Number<T>>,
    phantom: PhantomData<P>,
}

impl<P: Partition, T: Float> View for NodeArray<P, T> {
    type V = Seq<Number<T>>;

    closed spec fn view(&self) -> Seq<Number<T>> {
        self.inner@
    }
}

impl<P: Partition, T: Float> NodeArray<P, T> {
    /// An array in which every value is zero.
    pub fn new() -> (array: Self)
        ensures
            array@.len() == P::spec_size() + 1,
            forall|i: int| 0 <= i < array@.len() ==> array@[i].bits() == 0,
    {
        Self::default()
    }

    /// The array has one value for each node.
    #[verifier::type_invariant]
    pub open spec fn wf(self) -> bool {
        self@.len() == P::spec_size() + 1
    }

    /// Number of values in the array.
    pub fn len(&self) -> (n: usize)
        ensures
            n == P::spec_size() + 1,
            n == self@.len(),
    {
        proof {
            use_type_invariant(self);
        }
        self.inner.len()
    }

    /// The value at position `index`.
    pub fn get(&self, index: usize) -> (value: Number<T>)
        requires
            index < P::spec_size() + 1,
        ensures
            index < self@.len(),
            value == self@[index as int],
    {
        proof {
            use_type_invariant(self);
        }
        self.inner[index]
    }

    /// Replaces the value at position `index`.
    pub fn set(&mut self, index: usize, value: Number<T>)
        requires
            index < P::spec_size() + 1,
        ensures
            index < old(self)@.len(),
            final(self)@ == old(self)@.update(index as int, value),
    {
        proof {
            use_type_invariant(&*self);
        }
        self.inner[index] = value;
    }
}

impl<P: Partition, T: Float> Default for NodeArray<P, T> {
    /// An array in which every value is zero.
    fn default() -> (array: Self)
        ensures
            array@.len() == P::spec_size() + 1,
            forall|i: int| 0 <= i < array@.len() ==> array@[i].bits() == 0,
    {
        proof {
            P::lemma_size();
        }
        let n = P::size() + 1;
        let mut inner: Vec<Number<T>> = Vec::with_capacity(n);
        for i in 0..n
            invariant
                inner.len() == i,
                forall|j: int| 0 <= j < i ==> inner[j].bits() == 0,
        {
            inner.push(Number::zero());
        }
        NodeArray { inner, phantom: PhantomData }
    }
}

/// Array of `N + 1` data defined over the nodes of an `N`-sub-interval
/// partition.
pub(crate) struct DataArray<P: Partition, T: Float> {
    inner: Vec<Datum<T>>,
    phantom: PhantomData<P>,
}

impl<P: Partition, T: Float> View for DataArray<P, T> {
    type V = Seq<Datum<T>>;

    closed spec fn view(&self) -> Seq<Datum<T>> {
        self.inner@
    }
}

impl<P: Partition, T: Float> DataArray<P, T> {
    /// The array has one value for each node.
    #[verifier::type_invariant]
    pub open spec fn wf(self) -> bool {
        self@.len() == P::spec_size() + 1
    }

    /// Number of values in the array.
    pub(crate) fn len(&self) -> (n: usize)
        ensures
            n == P::spec_size() + 1,
            n == self@.len(),
    {
        proof {
            use_type_invariant(self);
        }
        self.inner.len()
    }

    /// The value at position `index`.
    pub(crate) fn get(&self, index: usize) -> (value: Datum<T>)
        requires
            index < P::spec_size() + 1,
        ensures
            index < self@.len(),
            value == self@[index as int],
    {
        proof {
            use_type_invariant(self);
        }
        self.inner[index]
    }

    /// Replaces the value at position `index`.
    pub(crate) fn set(&mut self, index: usize, value: Datum<T>)
        requires
            index < P::spec_size() + 1,
        ensures
            index < old(self)@.len(),
            final(self)@ == old(self)@.update(index as int, value),
    {
        proof {
            use_type_invariant(&*self);
        }
        self.inner[index] = value;
    }
}

impl<P: Partition, T: Float> Default for DataArray<P, T> {
    /// An array in which every datum is zero.
    fn default() -> (array: Self)
        ensures
            array@.len() == P::spec_size() + 1,
    {
        proof {
            P::lemma_size();
        }
        let n = P::size() + 1;
        let zero = Datum {
            alpha: Number::zero(),
            beta: Number::zero(),
            wedge_switch: T::UInt::zero(),
        };
        let mut inner: Vec<Datum<T>> = Vec::with_capacity(n);
        for i in 0..n
            invariant
                inner.len() == i,
        {
            inner.push(zero);
        }
        DataArray { inner, phantom: PhantomData }
    }
}

/// Initialization table of a sampler: the nodes of the partition with,
/// for each sub-interval, the infimum and the supremum of the function over it.
pub struct InitTable<P: Partition, T: Float> {
    pub x: NodeArray<P, T>,
    pub yinf: IntervalArray<P, T>,
    pub ysup: IntervalArray<P, T>,
}

impl<P: Partition, T: Float> InitTable<P, T> {
    /// A table in which every value is zero.
    pub fn new() -> (table: Self)
        ensures
            table.x@.len() == P::spec_size() + 1,
            table.yinf@.len() == P::spec_size(),
            table.ysup@.len() == P::spec_size(),
            forall|i: int| 0 <= i < table.x@.len() ==> table.x@[i].bits() == 0,
            forall|i: int| 0 <= i < table.yinf@.len() ==> table.yinf@[i].bits() == 0,
            forall|i: int| 0 <= i < table.ysup@.len() ==> table.ysup@[i].bits() == 0,
    {
        Self::default()
    }
}

impl<P: Partition, T: Float> Default for InitTable<P, T> {
    /// A table in which every value is zero.
    fn default() -> (table: Self)
        ensures
            table.x@.len() == P::spec_size() + 1,
            table.yinf@.len() == P::spec_size(),
            table.ysup@.len() == P::spec_size(),
            forall|i: int| 0 <= i < table.x@.len() ==> table.x@[i].bits() == 0,
            forall|i: int| 0 <= i < table.yinf@.len() ==> table.yinf@[i].bits() == 0,
            forall|i: int| 0 <= i < table.ysup@.len() ==> table.ysup@[i].bits() == 0,
    {
        InitTable {
            x: NodeArray::default(),
            yinf: IntervalArray::default(),
            ysup: IntervalArray::default(),
        }
    }
}

} // verus!
