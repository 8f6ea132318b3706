//! Reference counts of values that compiled code copies and overwrites.
//!
//! Compiled code handles a value as the 64 bits that it is boxed in. What lives on
//! the heap is a pointer in the low 48 bits, below a tag.

use std::collections::HashMap;

use vstd::prelude::*;

verus! {

/// The bits of a boxed value that hold a pointer.
pub const POINTER_MASK: u64 = 0x0000_FFFF_FFFF_FFFF;

/// The bits of a boxed value that hold its tag.
pub const TAG_MASK: u64 = 0x7FFF_0000_0000_0000;

/// The tag of an object.
pub const OBJECT_TAG: u64 = 0x7FFC_0000_0000_0000;

/// The pointer in a boxed value.
pub open spec fn pointer(raw: u64) -> u64 {
    raw & POINTER_MASK
}

/// A boxed value is an object.
pub open spec fn is_object(raw: u64) -> bool {
    raw & TAG_MASK == OBJECT_TAG
}

/// The boxed value of the object at a pointer.
pub open spec fn object_bits(pointer: u64) -> u64 {
    OBJECT_TAG | pointer
}

/// Boxing an object keeps its pointer, and the result is known for an object.
pub proof fn boxed_object_keeps_pointer(p: u64)
    requires
        p <= POINTER_MASK,
    ensures
        pointer(object_bits(p)) == p,
        is_object(object_bits(p)),
{
    assert((0x7FFC_0000_0000_0000u64 | p) & 0x0000_FFFF_FFFF_FFFFu64 == p && (
    0x7FFC_0000_0000_0000u64 | p) & 0x7FFF_0000_0000_0000u64 == 0x7FFC_0000_0000_0000u64)
        by (bit_vector)
        requires
            p <= 0x0000_FFFF_FFFF_FFFFu64,
    ;
}

/// Returns the pointer in a boxed value.
pub fn gc_pointer(raw: u64) -> (p: u64)
    ensures
        p == pointer(raw),
{
    raw & POINTER_MASK
}

/// Boxes the object at a pointer.
pub fn box_object(p: u64) -> (raw: u64)
    ensures
        raw == object_bits(p),
{
    OBJECT_TAG | p
}

/// How many references there are to each allocation on the heap, by its pointer.
pub struct RefCounts {
    pub counts: HashMap<u64, u64>,
}

impl View for RefCounts {
    type V = Map<u64, u64>;

    open spec fn view(&self) -> Map<u64, u64> {
        self.counts@
    }
}

impl RefCounts {
    /// Creates a table without allocations.
    pub fn new() -> (counts: RefCounts)
        ensures
            counts@ == Map::<u64, u64>::empty(),
    {
        RefCounts { counts: HashMap::new() }
    }

    /// Adds an allocation, with one reference to it.
    pub fn allocate(&mut self, p: u64)
        ensures
            final(self)@ == old(self)@.insert(p, 1),
    {
        broadcast use vstd::std_specs::hash::group_hash_axioms;

        self.counts.insert(p, 1);
    }

    /// Returns the number of references to an allocation, 0 if there is none.
    pub fn count(&self, p: u64) -> (count: u64)
        ensures
            count == (if self@.contains_key(p) {
                self@[p]
            } else {
                0
            }),
    {
        broadcast use vstd::std_specs::hash::group_hash_axioms;

        match self.counts.get(&p) {
            Some(count) => *count,
            None => 0,
        }
    }
}

/// The counts after a value was cloned.
pub open spec fn cloned_value(counts: Map<u64, u64>, raw: u64) -> Map<u64, u64> {
    counts.insert(pointer(raw), (counts[pointer(raw)] + 1) as u64)
}

/// The counts after a value was dropped.
pub open spec fn dropped_value(counts: Map<u64, u64>, raw: u64) -> Map<u64, u64> {
    counts.insert(pointer(raw), (counts[pointer(raw)] - 1) as u64)
}

/// Increment the reference count of a value on the heap, given the bits that it is
/// boxed in.
///
/// Called by compiled code after copying a pointer-typed value to a new register. The
/// caller has already checked that the tag indicates a pointer type.
pub fn jit_clone_value(counts: &mut RefCounts, raw: u64)
    requires
        old(counts)@.contains_key(pointer(raw)),
        old(counts)@[pointer(raw)] < u64::MAX,
    ensures
        final(counts)@ == cloned_value(old(counts)@, raw),
{
    broadcast use vstd::std_specs::hash::group_hash_axioms;

    let p = gc_pointer(raw);
    let count: u64 = counts.count(p);
    counts.counts.insert(p, count + 1);
}

/// Decrement the reference count of a value on the heap, given the bits that it is
/// boxed in.
///
/// Called by compiled code when overwriting a register that held a pointer-typed value.
pub fn jit_drop_value(counts: &mut RefCounts, raw: u64)
    requires
        old(counts)@.contains_key(pointer(raw)),
        old(counts)@[pointer(raw)] > 0,
    ensures
        final(counts)@ == dropped_value(old(counts)@, raw),
{
    broadcast use vstd::std_specs::hash::group_hash_axioms;

    let p = gc_pointer(raw);
    let count: u64 = counts.count(p);
    counts.counts.insert(p, count - 1);
}

/// Dropping a value that was just cloned leaves the counts as they were.
pub proof fn drop_undoes_clone(counts: Map<u64, u64>, raw: u64)
    requires
        counts.contains_key(pointer(raw)),
        counts[pointer(raw)] < u64::MAX,
    ensures
        dropped_value(cloned_value(counts, raw), raw) == counts,
{
    assert(dropped_value(cloned_value(counts, raw), raw) =~= counts);
}

/// Cloning or dropping a value does not touch the counts of other allocations.
pub proof fn other_counts_unchanged(counts: Map<u64, u64>, raw: u64, other: u64)
    requires
        other != pointer(raw),
    ensures
        cloned_value(counts, raw).contains_key(other) == counts.contains_key(other),
        cloned_value(counts, raw)[other] == counts[other],
        dropped_value(counts, raw).contains_key(other) == counts.contains_key(other),
        counts.contains_key(other) ==> dropped_value(counts, raw)[other] == counts[other],
{
}

/// A clone is one more reference, and a drop is one less. Neither comes or goes itself.
pub proof fn references_are_counted(counts: Map<u64, u64>, raw: u64)
    requires
        counts.contains_key(raw & 0x0000_FFFF_FFFF_FFFF),
    ensures
        ({
            let p = raw & 0x0000_FFFF_FFFF_FFFF;
            &&& counts[p] < u64::MAX ==> cloned_value(counts, raw)[p] == counts[p] + 1
            &&& counts[p] > 0 ==> dropped_value(counts, raw)[p] == counts[p] - 1
            &&& cloned_value(counts, raw).dom() == counts.dom()
            &&& dropped_value(counts, raw).dom() == counts.dom()
            &&& forall|other: u64|
                other != p ==> #[trigger] cloned_value(counts, raw)[other] == counts[other]
            &&& forall|other: u64|
                other != p ==> #[trigger] dropped_value(counts, raw)[other] == counts[other]
        }),
{
    assert(cloned_value(counts, raw).dom() =~= counts.dom());
    assert(dropped_value(counts, raw).dom() =~= counts.dom());
}

/// A boxed object has its pointer in the low 48 bits and the object tag above, but for the
/// sign bit, which plays no part.
pub proof fn boxes_split_into_tag_and_pointer(p: u64, raw: u64)
    requires
        p < 0x1_0000_0000_0000,
    ensures
        object_bits(p) == 0x7FFC_0000_0000_0000 + p,
        pointer(raw) == raw as int % 0x1_0000_0000_0000,
        is_object(raw) <==> (raw as int / 0x1_0000_0000_0000) % 0x8000 == 0x7FFC,
{
    assert(0x7FFC_0000_0000_0000u64 | p == 0x7FFC_0000_0000_0000u64 + p) by (bit_vector)
        requires
            p < 0x1_0000_0000_0000u64,
    ;
    assert(raw & 0x0000_FFFF_FFFF_FFFFu64 == raw % 0x1_0000_0000_0000u64) by (bit_vector);
    assert((raw & 0x7FFF_0000_0000_0000u64 == 0x7FFC_0000_0000_0000u64) == ((raw
        / 0x1_0000_0000_0000u64) % 0x8000u64 == 0x7FFCu64)) by (bit_vector);
}

} // verus!
