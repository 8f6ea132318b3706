//! Code blocks: the bytecode of a function and what it refers to.

use vstd::prelude::*;

use crate::bytecode::Bytecode;

verus! {

/// A reference to a variable. `location` is where the engine found it last.
#[derive(Debug)]
pub struct BindingLocator {
    pub name: String,
    pub location: u64,
}

impl Clone for BindingLocator {
    fn clone(&self) -> (copy: BindingLocator)
        ensures
            copy.name@ == self.name@,
            copy.location == self.location,
    {
        BindingLocator { name: self.name.clone(), location: self.location }
    }
}

/// Where objects of some shape keep a property.
#[derive(Clone, Copy, Debug, PartialEq, Eq, Structural)]
pub struct Slot {
    pub index: u32,
    /// The property belongs to the prototype.
    pub prototype: bool,
    /// The slot holds a getter.
    pub get: bool,
}

/// A shape, and the slot of the cached property in objects of that shape.
#[derive(Clone, Copy, Debug, PartialEq, Eq, Structural)]
pub struct CacheEntry {
    pub shape: u64,
    pub slot: Slot,
}

/// The inline cache of one property access.
pub struct InlineCache {
    /// The name of the property.
    pub name: String,
    /// The shapes seen so far.
    pub entries: Vec<CacheEntry>,
}

/// The slot of the first entry for `shape`.
pub open spec fn cached_slot(entries: Seq<CacheEntry>, shape: u64) -> Option<Slot>
    decreases entries.len(),
{
    if entries.len() == 0 {
        None
    } else if entries[0].shape == shape {
        Some(entries[0].slot)
    } else {
        cached_slot(entries.drop_first(), shape)
    }
}

impl InlineCache {
    /// Returns the slot that is cached for objects of a shape.
    pub fn get(&self, shape: u64) -> (slot: Option<Slot>)
        ensures
            slot == cached_slot(self.entries@, shape),
    {
        let mut i: usize = 0;
        assert(self.entries@.skip(0) =~= self.entries@);
        while i < self.entries.len()
            invariant
                i <= self.entries@.len(),
                cached_slot(self.entries@, shape) == cached_slot(
                    self.entries@.skip(i as int),
                    shape,
                ),
            decreases self.entries@.len() - i,
        {
            if self.entries[i].shape == shape {
                return Some(self.entries[i].slot);
            }
            assert(self.entries@.skip(i as int).drop_first() =~= self.entries@.skip(i + 1));
            i = i + 1;
        }
        None
    }
}

/// The bytecode of a function, with the tables that its operands index.
pub struct CodeBlock {
    pub name: String,
    /// How many parameters the function expects.
    pub length: u32,
    pub strict: bool,
    pub register_count: u32,
    pub bytecode: Bytecode,
    pub bindings: Vec<BindingLocator>,
    pub ic: Vec<InlineCache>,
}

impl CodeBlock {
    /// Creates a code block without code.
    pub fn new(name: String, length: u32, strict: bool) -> (code: CodeBlock)
        ensures
            code.name == name,
            code.length == length,
            code.strict == strict,
            code.register_count == 0,
            code.bytecode.bytes@.len() == 0,
            code.bindings@.len() == 0,
            code.ic@.len() == 0,
    {
        CodeBlock {
            name,
            length,
            strict,
            register_count: 0,
            bytecode: Bytecode { bytes: Vec::new() },
            bindings: Vec::new(),
            ic: Vec::new(),
        }
    }
}

/// The cached slot is that of the first entry with the shape. There is none exactly if no
/// entry has it.
pub proof fn first_entry_counts(entries: Seq<CacheEntry>, shape: u64)
    ensures
        match cached_slot(entries, shape) {
            Some(slot) => exists|i: int|
                0 <= i < entries.len() && #[trigger] entries[i].slot == slot
                    && entries[i].shape == shape && forall|j: int|
                    0 <= j < i ==> (#[trigger] entries[j]).shape != shape,
            None => forall|i: int|
                0 <= i < entries.len() ==> (#[trigger] entries[i]).shape != shape,
        },
    decreases entries.len(),
{
    if entries.len() > 0 {
        let rest = entries.drop_first();
        first_entry_counts(rest, shape);
        if entries[0].shape != shape {
            match cached_slot(rest, shape) {
                Some(slot) => {
                    let i = choose|i: int|
                        0 <= i < rest.len() && #[trigger] rest[i].slot == slot && rest[i].shape
                            == shape && forall|j: int|
                            0 <= j < i ==> (#[trigger] rest[j]).shape != shape;
                    assert(entries[i + 1] == rest[i]);
                    assert forall|j: int| 0 <= j < i + 1 implies (#[trigger] entries[j]).shape
                        != shape by {
                        if j > 0 {
                            assert(entries[j] == rest[j - 1]);
                        }
                    }
                    assert(entries[i + 1].slot == slot);
                },
                None => {
                    assert forall|i: int| 0 <= i < entries.len() implies (
                    #[trigger] entries[i]).shape != shape by {
                        if i > 0 {
                            assert(entries[i] == rest[i - 1]);
                        }
                    }
                },
            }
        } else {
            assert(entries[0].slot == entries[0].slot);
        }
    }
}

} // verus!
