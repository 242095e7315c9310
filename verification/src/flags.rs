//! Semantic model of the generated wrapper's operation surface.
//!
//! The generator emits, for every declared flag type, the same fixed set of
//! operations: an atomic load of the raw bits, a decode of those bits into
//! the plain flag value, membership tests, an unconditional clear, and three
//! families of read-modify-write updates (intersection, union, subtraction)
//! that return the state held immediately before the mutation.  This module
//! states those semantics once, over a model flag value backed by a 64-bit
//! integer, and proves the laws that every emitted wrapper is meant to obey.

use vstd::prelude::*;
use vstd::std_specs::cmp::PartialEqSpec;

verus! {

/// A plain bit-flag value: the decoded form of a raw backing integer.
///
/// The flag abstraction consumed by the generator preserves unknown bit
/// patterns opaquely, so decoding (`from_bits_retain`) keeps every bit of
/// the raw integer and never fails.
#[derive(Clone, Copy, PartialEq, Eq, Structural, Debug)]
pub struct FlagBits {
    pub bits: u64,
}

impl FlagBits {
    /// The flag value with no bits set.
    pub open spec fn spec_empty() -> FlagBits {
        FlagBits { bits: 0 }
    }

    /// A flag value is empty when no bit is set.
    pub open spec fn spec_is_empty(self) -> bool {
        self.bits == 0
    }

    /// `self` contains `other` when every bit set in `other` is set in `self`.
    pub open spec fn spec_contains(self, other: FlagBits) -> bool {
        self.bits & other.bits == other.bits
    }

    /// Decode a raw integer into a flag value, keeping every bit.
    pub fn from_bits_retain(bits: u64) -> (r: FlagBits)
        ensures
            r.bits == bits,
    {
        FlagBits { bits }
    }

    /// The raw backing integer of this flag value.
    pub fn bits(&self) -> (r: u64)
        ensures
            r == self.bits,
    {
        self.bits
    }

    /// Whether no bit is set.
    pub fn is_empty(&self) -> (r: bool)
        ensures
            r == self.spec_is_empty(),
    {
        self.bits == 0
    }

    /// Whether every bit of `other` is set in `self`.
    pub fn contains(&self, other: FlagBits) -> (r: bool)
        ensures
            r == self.spec_contains(other),
    {
        self.bits & other.bits == other.bits
    }

    /// The union of two flag values.
    pub fn union(self, other: FlagBits) -> (r: FlagBits)
        ensures
            r.bits == (self.bits | other.bits),
    {
        FlagBits { bits: self.bits | other.bits }
    }

    /// The intersection of two flag values.
    pub fn intersection(self, other: FlagBits) -> (r: FlagBits)
        ensures
            r.bits == (self.bits & other.bits),
    {
        FlagBits { bits: self.bits & other.bits }
    }

    /// The bits of `self` that are not in `other`.
    pub fn difference(self, other: FlagBits) -> (r: FlagBits)
        ensures
            r.bits == (self.bits & !other.bits),
    {
        FlagBits { bits: self.bits & !other.bits }
    }
}

/// The model of one generated wrapper: a cell holding the raw bits of a flag
/// value, with the operation surface the generator emits.
///
/// Every emitted operation is a single read-modify-write step on the cell;
/// the contracts below pin down, for each operation, the new cell state and
/// the returned value (the state held immediately *before* the mutation, for
/// the three update families).
pub struct AtomicFlags {
    bits: u64,
}

impl AtomicFlags {
    /// The raw bits currently held by the cell.
    pub closed spec fn spec_bits(&self) -> u64 {
        self.bits
    }

    /// The decoded flag value currently held by the cell.
    pub open spec fn spec_get(&self) -> FlagBits {
        FlagBits { bits: self.spec_bits() }
    }

    /// Create a cell holding the given raw bits.
    pub fn new(bits: u64) -> (r: AtomicFlags)
        ensures
            r.spec_bits() == bits,
    {
        AtomicFlags { bits }
    }

    /// Load the raw bits.
    pub fn bits(&self) -> (r: u64)
        ensures
            r == self.spec_bits(),
    {
        self.bits
    }

    /// Decode the current bits into the plain flag value; never fails.
    pub fn get(&self) -> (r: FlagBits)
        ensures
            r == self.spec_get(),
    {
        FlagBits::from_bits_retain(self.bits())
    }

    /// Whether the current flag value has no bit set.
    pub fn is_empty(&self) -> (r: bool)
        ensures
            r == self.spec_get().spec_is_empty(),
    {
        self.get().is_empty()
    }

    /// Whether the current flag value contains every bit of `other`.
    pub fn contains(&self, other: FlagBits) -> (r: bool)
        ensures
            r == self.spec_get().spec_contains(other),
    {
        self.get().contains(other)
    }

    /// Store zero: unconditionally discard the previous value.
    pub fn clear(&mut self)
        ensures
            final(self).spec_bits() == 0,
            final(self).spec_get().spec_is_empty(),
    {
        self.bits = 0;
    }

    /// Intersect the cell with `rhs` and return the flag value decoded from
    /// the bits held immediately before the operation.
    pub fn fetch_and(&mut self, rhs: FlagBits) -> (prior: FlagBits)
        ensures
            prior == old(self).spec_get(),
            final(self).spec_bits() == (old(self).spec_bits() & rhs.bits),
    {
        let prior = self.get();
        self.bits = self.bits & rhs.bits;
        prior
    }

    /// Union the cell with `rhs` and return the flag value decoded from the
    /// bits held immediately before the operation.
    pub fn fetch_or(&mut self, rhs: FlagBits) -> (prior: FlagBits)
        ensures
            prior == old(self).spec_get(),
            final(self).spec_bits() == (old(self).spec_bits() | rhs.bits),
    {
        let prior = self.get();
        self.bits = self.bits | rhs.bits;
        prior
    }

    /// Clear exactly the bits of `rhs` (intersection with its complement)
    /// and return the flag value decoded from the bits held immediately
    /// before the operation.  The result never has a bit of `rhs` set.
    pub fn fetch_sub(&mut self, rhs: FlagBits) -> (prior: FlagBits)
        ensures
            prior == old(self).spec_get(),
            final(self).spec_bits() == (old(self).spec_bits() & !rhs.bits),
            final(self).spec_bits() & rhs.bits == 0,
    {
        let prior = self.get();
        let s = self.bits;
        let m = rhs.bits;
        self.bits = s & !m;
        proof {
            assert((s & !m) & m == 0) by (bit_vector);
        }
        prior
    }

    /// Intersect the cell with `rhs`, discarding the prior value.
    pub fn and_assign(&mut self, rhs: FlagBits)
        ensures
            final(self).spec_bits() == (old(self).spec_bits() & rhs.bits),
    {
        self.bits = self.bits & rhs.bits;
    }

    /// Union the cell with `rhs`, discarding the prior value.
    pub fn or_assign(&mut self, rhs: FlagBits)
        ensures
            final(self).spec_bits() == (old(self).spec_bits() | rhs.bits),
    {
        self.bits = self.bits | rhs.bits;
    }

    /// Clear the bits of `rhs`, discarding the prior value.
    pub fn sub_assign(&mut self, rhs: FlagBits)
        ensures
            final(self).spec_bits() == (old(self).spec_bits() & !rhs.bits),
            final(self).spec_bits() & rhs.bits == 0,
    {
        let s = self.bits;
        let m = rhs.bits;
        self.bits = s & !m;
        proof {
            assert((s & !m) & m == 0) by (bit_vector);
        }
    }
}

/// The default value holds zero bits: all flags cleared.
impl Default for AtomicFlags {
    fn default() -> (r: AtomicFlags)
        ensures
            r.spec_bits() == 0,
            r.spec_get().spec_is_empty(),
    {
        AtomicFlags { bits: 0 }
    }
}

/// The wrapper compares equal to a plain flag value exactly when its current
/// decoded value equals that flag value (a point-in-time snapshot).
impl PartialEq<FlagBits> for AtomicFlags {
    fn eq(&self, other: &FlagBits) -> (r: bool) {
        self.get() == *other
    }
}

impl vstd::std_specs::cmp::PartialEqSpecImpl<FlagBits> for AtomicFlags {
    open spec fn obeys_eq_spec() -> bool {
        true
    }

    open spec fn eq_spec(&self, other: &FlagBits) -> bool {
        self.spec_get() == *other
    }
}

/// One-way conversion: a wrapper converts into the plain flag value it
/// currently holds; there is no implicit conversion back.
impl From<AtomicFlags> for FlagBits {
    fn from(value: AtomicFlags) -> (r: FlagBits) {
        value.get()
    }
}

impl vstd::std_specs::convert::FromSpecImpl<AtomicFlags> for FlagBits {
    open spec fn obeys_from_spec() -> bool {
        true
    }

    open spec fn from_spec(value: AtomicFlags) -> FlagBits {
        value.spec_get()
    }
}

/// A cell created from raw bits decodes to exactly the retain-decoding of
/// those bits: no bit is added, dropped or validated on the way out.
pub proof fn lemma_new_get(c: AtomicFlags, b: u64)
    requires
        c.spec_bits() == b,
    ensures
        c.spec_get() == (FlagBits { bits: b }),
{
}

/// Intersecting a state with the same mask twice yields the same state as
/// intersecting once.
pub proof fn lemma_intersect_idempotent(s: u64, m: u64)
    ensures
        (s & m) & m == s & m,
{
    assert((s & m) & m == s & m) by (bit_vector);
}

/// Subtraction never sets bits: after clearing the bits of `m` from any
/// state, no bit of `m` remains set.
pub proof fn lemma_subtract_clears(s: u64, m: u64)
    ensures
        (s & !m) & m == 0,
{
    assert((s & !m) & m == 0) by (bit_vector);
}

/// The wrapper compares equal to a plain flag value exactly when its
/// current decoded value equals that flag value.
pub proof fn lemma_eq_iff_get(c: AtomicFlags, f: FlagBits)
    ensures
        c.eq_spec(&f) <==> c.spec_get() == f,
{
}

/// The raw bits of a sequence of flag operands.
pub open spec fn bits_of(ops: Seq<FlagBits>) -> Seq<u64> {
    ops.map_values(|f: FlagBits| f.bits)
}

/// The union of all masks in `ms`.
pub open spec fn or_fold(ms: Seq<u64>) -> u64
    decreases ms.len(),
{
    if ms.len() == 0 {
        0u64
    } else {
        or_fold(ms.drop_last()) | ms.last()
    }
}

/// The state reached from `s` by applying a union with each mask of `ms`,
/// in order.
pub open spec fn or_all(s: u64, ms: Seq<u64>) -> u64
    decreases ms.len(),
{
    if ms.len() == 0 {
        s
    } else {
        or_all(s, ms.drop_last()) | ms.last()
    }
}

/// Applying a union with every mask of `ms` reaches the union of the
/// starting state with all the masks at once.
pub proof fn lemma_or_all_is_union(s: u64, ms: Seq<u64>)
    ensures
        or_all(s, ms) == (s | or_fold(ms)),
    decreases ms.len(),
{
    if ms.len() == 0 {
        assert(s | 0u64 == s) by (bit_vector);
    } else {
        lemma_or_all_is_union(s, ms.drop_last());
        let a = or_fold(ms.drop_last());
        let x = ms.last();
        assert((s | a) | x == s | (a | x)) by (bit_vector);
    }
}

/// Any one mask of the sequence can be applied last without changing the
/// state reached.
pub proof fn lemma_or_all_pull(s: u64, ms: Seq<u64>, i: int)
    requires
        0 <= i < ms.len(),
    ensures
        or_all(s, ms) == (or_all(s, ms.remove(i)) | ms[i]),
    decreases ms.len(),
{
    if i == ms.len() - 1 {
        assert(ms.remove(i) =~= ms.drop_last());
    } else {
        let dl = ms.drop_last();
        lemma_or_all_pull(s, dl, i);
        assert(ms.remove(i).drop_last() =~= dl.remove(i));
        assert(ms.remove(i).last() == ms.last());
        let a = or_all(s, dl.remove(i));
        let x = ms[i];
        let y = ms.last();
        assert((a | x) | y == (a | y) | x) by (bit_vector);
    }
}

/// Reordering the masks does not change the state reached: applying unions
/// with the same collection of operands, in any order, leaves the cell in
/// the same state.  This is the order-independence behind concurrent union
/// operations on one shared cell.
pub proof fn lemma_or_all_permutation(s: u64, ms1: Seq<u64>, ms2: Seq<u64>)
    requires
        ms1.to_multiset() == ms2.to_multiset(),
    ensures
        or_all(s, ms1) == or_all(s, ms2),
    decreases ms2.len(),
{
    broadcast use vstd::seq_lib::group_to_multiset_ensures;

    if ms2.len() == 0 {
        assert(ms1.to_multiset().len() == 0);
        assert(ms1.len() == 0);
    } else {
        let x = ms2.last();
        assert(ms2 =~= ms2.drop_last().push(x));
        assert(ms2.to_multiset() =~= ms2.drop_last().to_multiset().insert(x));
        assert(ms1.to_multiset().contains(x));
        assert(ms1.contains(x));
        let i = choose|i: int| 0 <= i < ms1.len() && ms1[i] == x;
        lemma_or_all_pull(s, ms1, i);
        assert(ms1.remove(i).to_multiset() =~= ms1.to_multiset().remove(x));
        assert(ms2.drop_last().to_multiset() =~= ms2.to_multiset().remove(x));
        lemma_or_all_permutation(s, ms1.remove(i), ms2.drop_last());
    }
}

impl AtomicFlags {
    /// Apply a union with every operand of `ops`, in order.
    ///
    /// The final state is the union of the starting state with all the
    /// operands; by `lemma_or_all_permutation` it does not depend on the
    /// order in which the unions are applied.
    pub fn apply_unions(&mut self, ops: &Vec<FlagBits>)
        ensures
            final(self).spec_bits() == or_all(old(self).spec_bits(), bits_of(ops@)),
            final(self).spec_bits() == (old(self).spec_bits() | or_fold(bits_of(ops@))),
    {
        let ghost s0 = self.spec_bits();
        for i in 0..ops.len()
            invariant
                self.spec_bits() == or_all(s0, bits_of(ops@.take(i as int))),
        {
            self.or_assign(ops[i]);
            proof {
                let t = bits_of(ops@.take(i + 1 as int));
                assert(t.drop_last() =~= bits_of(ops@.take(i as int)));
                assert(t.last() == ops@[i as int].bits);
            }
        }
        proof {
            assert(ops@.take(ops@.len() as int) =~= ops@);
            lemma_or_all_is_union(s0, bits_of(ops@));
        }
    }
}

} // verus!
