//! The memory layout that inline caching in compiled code rests on.
//!
//! Compiled code compares the shape of an object with a shape that the inline cache
//! has seen, and reads the property right from its slot when they are the same.

use std::collections::HashMap;

use vstd::prelude::*;

use crate::helpers::refcount::{
    boxes_split_into_tag_and_pointer, gc_pointer, is_object, pointer, OBJECT_TAG, TAG_MASK,
};

verus! {

/// Where an object keeps its shape and its storage, as distances from the pointer that
/// is boxed for it.
#[derive(Clone, Copy, Debug, PartialEq, Eq, Structural)]
pub struct IcLayout {
    pub shape_offset: i64,
    pub storage_offset: i64,
}

/// Returns the layout of an object, given its boxed bits and the addresses of its shape
/// and its storage.
pub fn ic_layout(raw: u64, shape: u64, storage: u64) -> (layout: IcLayout)
    requires
        shape <= i64::MAX,
        storage <= i64::MAX,
    ensures
        layout.shape_offset == shape - pointer(raw),
        layout.storage_offset == storage - pointer(raw),
{
    let p = gc_pointer(raw);
    assert(raw & 0x0000_FFFF_FFFF_FFFFu64 <= 0x0000_FFFF_FFFF_FFFFu64) by (bit_vector);
    IcLayout {
        shape_offset: shape as i64 - p as i64,
        storage_offset: storage as i64 - p as i64,
    }
}

/// An object as compiled code finds it in memory: the address of its shape, and the
/// boxed values in its slots.
#[derive(Debug)]
pub struct RawObject {
    pub shape: u64,
    pub storage: Vec<u64>,
}

/// The value that the fast path finds: that of the slot, if the boxed value is an object
/// with the cached shape.
pub open spec fn fast_value(
    objects: Map<u64, RawObject>,
    raw: u64,
    cached_shape: u64,
    slot_index: u32,
) -> Option<u64> {
    let object = objects[pointer(raw)];
    if is_object(raw) && objects.contains_key(pointer(raw)) && object.shape == cached_shape
        && slot_index < object.storage@.len() {
        Some(object.storage@[slot_index as int])
    } else {
        None
    }
}

/// Reads a property by the fast path. Returns `None` if the boxed value is no object, or
/// has another shape than the cached one.
pub fn ic_fast_get(
    objects: &HashMap<u64, RawObject>,
    raw: u64,
    cached_shape: u64,
    slot_index: u32,
) -> (value: Option<u64>)
    ensures
        value == fast_value(objects@, raw, cached_shape, slot_index),
{
    broadcast use vstd::std_specs::hash::group_hash_axioms;

    if raw & TAG_MASK != OBJECT_TAG {
        return None;
    }
    match objects.get(&gc_pointer(raw)) {
        Some(object) => {
            if object.shape == cached_shape && (slot_index as usize) < object.storage.len() {
                Some(object.storage[slot_index as usize])
            } else {
                None
            }
        },
        None => None,
    }
}

/// The fast path finds the value of the slot of an object with the cached shape. The bits of
/// the box are the object tag, which is 15 bits wide, above the pointer.
pub proof fn fast_path_reads_the_slot(
    objects: Map<u64, RawObject>,
    p: u64,
    cached_shape: u64,
    slot_index: u32,
)
    requires
        p < 0x1_0000_0000_0000,
    ensures
        ({
            let raw = (0x7FFC_0000_0000_0000 + p) as u64;
            match fast_value(objects, raw, cached_shape, slot_index) {
                Some(value) => {
                    &&& objects.contains_key(p)
                    &&& objects[p].shape == cached_shape
                    &&& slot_index < objects[p].storage@.len()
                    &&& value == objects[p].storage@[slot_index as int]
                },
                None => {
                    ||| !objects.contains_key(p)
                    ||| objects[p].shape != cached_shape
                    ||| slot_index >= objects[p].storage@.len()
                },
            }
        }),
{
    let raw = (0x7FFC_0000_0000_0000 + p) as u64;
    boxes_split_into_tag_and_pointer(p, raw);
}

/// The fast path finds nothing in a value that is no object.
pub proof fn fast_path_needs_an_object(
    objects: Map<u64, RawObject>,
    raw: u64,
    cached_shape: u64,
    slot_index: u32,
)
    requires
        (raw as int / 0x1_0000_0000_0000) % 0x8000 != 0x7FFC,
    ensures
        fast_value(objects, raw, cached_shape, slot_index) is None,
{
    boxes_split_into_tag_and_pointer(0, raw);
}

} // verus!
