//! Property access.

use vstd::prelude::*;

use crate::code_block::{cached_slot, first_entry_counts, Slot};
use crate::helpers::{failure_raised, result_stored, status, store_result, Next};
use crate::value::{JsError, JsValue};
use crate::vm::{Vm, VmState};

verus! {

/// The key of a property.
#[derive(Debug)]
pub enum PropertyKey {
    /// A name that the code spells out.
    Named(String),
    /// A key that the engine computed.
    Computed(u64),
}

/// [`PropertyKey`] as a mathematical value.
pub enum KeyView {
    Named(Seq<char>),
    Computed(u64),
}

impl View for PropertyKey {
    type V = KeyView;

    open spec fn view(&self) -> KeyView {
        match *self {
            PropertyKey::Named(name) => KeyView::Named(name@),
            PropertyKey::Computed(key) => KeyView::Computed(key),
        }
    }
}

/// An object: its shape, its prototype, which goes with the shape, and the slots of
/// its properties.
pub struct JsObject {
    pub shape: u64,
    pub prototype: Option<u64>,
    pub storage: Vec<JsValue>,
}

/// The objects, by handle.
pub struct Heap {
    pub objects: Vec<JsObject>,
}

impl Heap {
    /// The object whose storage a slot of `object` refers to.
    pub open spec fn holder(&self, object: u64, slot: Slot) -> Option<u64> {
        if slot.prototype {
            self.objects@[object as int].prototype
        } else {
            Some(object)
        }
    }

    /// The slot refers to a value that is there.
    pub open spec fn has_slot(&self, object: u64, slot: Slot) -> bool {
        &&& object < self.objects@.len()
        &&& self.holder(object, slot) matches Some(holder)
            && holder < self.objects@.len()
            && slot.index < self.objects@[holder as int].storage@.len()
    }

    /// The value in a slot.
    pub open spec fn slot_value(&self, object: u64, slot: Slot) -> JsValue {
        self.objects@[self.holder(object, slot)->0 as int].storage@[slot.index as int]
    }

    /// Returns the value in a slot of an object, or of its prototype where the
    /// property belongs to that.
    pub fn get_slot(&self, object: u64, slot: Slot) -> (value: JsValue)
        requires
            self.has_slot(object, slot),
        ensures
            value == self.slot_value(object, slot),
            !slot.prototype ==> value
                == self.objects@[object as int].storage@[slot.index as int],
            slot.prototype ==> (self.objects@[object as int].prototype matches Some(prototype)
                && value == self.objects@[prototype as int].storage@[slot.index as int]),
    {
        assert(self.objects.len() == self.objects@.len());
        let holder: u64 = if slot.prototype {
            self.objects[object as usize].prototype.unwrap()
        } else {
            object
        };
        self.objects[holder as usize].storage[slot.index as usize]
    }
}

/// Asks for the value of a property of an object.
#[derive(Debug)]
pub struct PropertyGet {
    pub dst: u32,
    pub object: u64,
    pub key: PropertyKey,
    pub receiver: JsValue,
}

impl PropertyGet {
    /// Stores the value. Returns 0 on success, 1 on exception.
    pub fn resume(self, vm: &mut Vm, result: Result<JsValue, JsError>) -> (code: u64)
        requires
            result is Ok ==> old(vm)@.has_register(self.dst),
        ensures
            code == status(result),
            final(vm)@ == result_stored(old(vm)@, self.dst, result),
    {
        store_result(vm, self.dst, result)
    }
}

/// Asks to convert a value to an object, for reading a property by value.
#[derive(Clone, Copy, Debug, PartialEq, Eq, Structural)]
pub struct GetByValue {
    pub dst: u32,
    pub key: JsValue,
    pub receiver: JsValue,
    pub object: JsValue,
}

/// Asks to convert a value to a property key, for reading a property by value.
#[derive(Clone, Copy, Debug, PartialEq, Eq, Structural)]
pub struct GetByValueKey {
    pub dst: u32,
    pub key: JsValue,
    pub receiver: JsValue,
    pub object: u64,
}

impl GetByValue {
    /// Goes on with the object. The key is converted after it.
    pub fn on_object(self, vm: &mut Vm, object: Result<u64, JsError>) -> (next: Next<
        GetByValueKey,
    >)
        ensures
            match object {
                Ok(object) => next == Next::Ask(
                    GetByValueKey {
                        dst: self.dst,
                        key: self.key,
                        receiver: self.receiver,
                        object,
                    },
                ) && final(vm)@ == old(vm)@,
                Err(error) => next == Next::<GetByValueKey>::Done(1) && final(vm)@ == old(
                    vm,
                )@.raise(error@),
            },
    {
        match object {
            Ok(object) => Next::Ask(
                GetByValueKey { dst: self.dst, key: self.key, receiver: self.receiver, object },
            ),
            Err(error) => {
                vm.raise(error);
                Next::Done(1)
            },
        }
    }
}

impl GetByValueKey {
    /// Goes on with the key. The property is read next.
    pub fn on_key(self, vm: &mut Vm, key: Result<PropertyKey, JsError>) -> (next: Next<
        PropertyGet,
    >)
        ensures
            match key {
                Ok(key) => next == Next::Ask(
                    PropertyGet {
                        dst: self.dst,
                        object: self.object,
                        key,
                        receiver: self.receiver,
                    },
                ) && final(vm)@ == old(vm)@,
                Err(error) => next == Next::<PropertyGet>::Done(1) && final(vm)@ == old(
                    vm,
                )@.raise(error@),
            },
    {
        match key {
            Ok(key) => Next::Ask(
                PropertyGet {
                    dst: self.dst,
                    object: self.object,
                    key,
                    receiver: self.receiver,
                },
            ),
            Err(error) => {
                vm.raise(error);
                Next::Done(1)
            },
        }
    }
}

/// `obj[key]` read. The status is 0 on success, 1 on exception.
///
/// Implements: `GetPropertyByValue { dst, key, receiver, object }`
pub fn jit_get_property_by_value(
    vm: &Vm,
    dst: u32,
    key: u32,
    receiver: u32,
    object: u32,
) -> (request: GetByValue)
    requires
        vm@.has_register(key),
        vm@.has_register(receiver),
        vm@.has_register(object),
    ensures
        request == (GetByValue {
            dst,
            key: vm@.register(key),
            receiver: vm@.register(receiver),
            object: vm@.register(object),
        }),
{
    GetByValue {
        dst,
        key: vm.get_register(key),
        receiver: vm.get_register(receiver),
        object: vm.get_register(object),
    }
}

/// `obj[key]` read that keeps the object for a compound assignment. The object
/// stays in its register, so this is [`jit_get_property_by_value`].
///
/// Implements: `GetPropertyByValuePush { dst, key, receiver, object }`
pub fn jit_get_property_by_value_push(
    vm: &Vm,
    dst: u32,
    key: u32,
    receiver: u32,
    object: u32,
) -> (request: GetByValue)
    requires
        vm@.has_register(key),
        vm@.has_register(receiver),
        vm@.has_register(object),
    ensures
        request == (GetByValue {
            dst,
            key: vm@.register(key),
            receiver: vm@.register(receiver),
            object: vm@.register(object),
        }),
{
    jit_get_property_by_value(vm, dst, key, receiver, object)
}

/// Asks to convert a value to an object, for writing a property by value.
#[derive(Clone, Copy, Debug, PartialEq, Eq, Structural)]
pub struct SetByValue {
    pub value: JsValue,
    pub key: JsValue,
    pub receiver: JsValue,
    pub object: JsValue,
}

/// Asks to convert a value to a property key, for writing a property by value.
#[derive(Clone, Copy, Debug, PartialEq, Eq, Structural)]
pub struct SetByValueKey {
    pub value: JsValue,
    pub key: JsValue,
    pub receiver: JsValue,
    pub object: u64,
}

/// Asks to write a property of an object.
#[derive(Debug)]
pub struct PropertySet {
    pub value: JsValue,
    pub key: PropertyKey,
    pub receiver: JsValue,
    pub object: u64,
}

impl SetByValue {
    /// Goes on with the object. The key is converted after it.
    pub fn on_object(self, vm: &mut Vm, object: Result<u64, JsError>) -> (next: Next<
        SetByValueKey,
    >)
        ensures
            match object {
                Ok(object) => next == Next::Ask(
                    SetByValueKey {
                        value: self.value,
                        key: self.key,
                        receiver: self.receiver,
                        object,
                    },
                ) && final(vm)@ == old(vm)@,
                Err(error) => next == Next::<SetByValueKey>::Done(1) && final(vm)@ == old(
                    vm,
                )@.raise(error@),
            },
    {
        match object {
            Ok(object) => Next::Ask(
                SetByValueKey {
                    value: self.value,
                    key: self.key,
                    receiver: self.receiver,
                    object,
                },
            ),
            Err(error) => {
                vm.raise(error);
                Next::Done(1)
            },
        }
    }
}

impl SetByValueKey {
    /// Goes on with the key. The property is written next.
    pub fn on_key(self, vm: &mut Vm, key: Result<PropertyKey, JsError>) -> (next: Next<
        PropertySet,
    >)
        ensures
            match key {
                Ok(key) => next == Next::Ask(
                    PropertySet {
                        value: self.value,
                        key,
                        receiver: self.receiver,
                        object: self.object,
                    },
                ) && final(vm)@ == old(vm)@,
                Err(error) => next == Next::<PropertySet>::Done(1) && final(vm)@ == old(
                    vm,
                )@.raise(error@),
            },
    {
        match key {
            Ok(key) => Next::Ask(
                PropertySet {
                    value: self.value,
                    key,
                    receiver: self.receiver,
                    object: self.object,
                },
            ),
            Err(error) => {
                vm.raise(error);
                Next::Done(1)
            },
        }
    }
}

impl PropertySet {
    /// Returns 0 if the write went through, 1 on exception. Whether the object took
    /// the value does not matter.
    pub fn resume(self, vm: &mut Vm, result: Result<bool, JsError>) -> (code: u64)
        ensures
            code == status(result),
            final(vm)@ == failure_raised(old(vm)@, result),
    {
        match result {
            Ok(_) => 0,
            Err(error) => {
                vm.raise(error);
                1
            },
        }
    }
}

/// `obj[key] = value`. The status is 0 on success, 1 on exception.
///
/// Implements: `SetPropertyByValue { value, key, receiver, object }`
pub fn jit_set_property_by_value(
    vm: &Vm,
    value: u32,
    key: u32,
    receiver: u32,
    object: u32,
) -> (request: SetByValue)
    requires
        vm@.has_register(value),
        vm@.has_register(key),
        vm@.has_register(receiver),
        vm@.has_register(object),
    ensures
        request == (SetByValue {
            value: vm@.register(value),
            key: vm@.register(key),
            receiver: vm@.register(receiver),
            object: vm@.register(object),
        }),
{
    SetByValue {
        value: vm.get_register(value),
        key: vm.get_register(key),
        receiver: vm.get_register(receiver),
        object: vm.get_register(object),
    }
}

/// Asks to convert a value to an object, for reading a property by name.
#[derive(Clone, Copy, Debug, PartialEq, Eq, Structural)]
pub struct NamedGet {
    pub dst: u32,
    pub object: JsValue,
    pub ic_index: u32,
}

impl NamedGet {
    /// Goes on with the object. The property that the inline cache names is read next,
    /// with the value itself as the receiver.
    pub fn on_object(self, vm: &mut Vm, object: Result<u64, JsError>) -> (next: Next<PropertyGet>)
        requires
            object is Ok ==> old(vm)@.frames.len() > 0 && self.ic_index < old(
                vm,
            )@.frame().code_block.ic@.len(),
        ensures
            match object {
                Ok(object) => {
                    &&& next matches Next::Ask(get)
                    &&& get.dst == self.dst
                    &&& get.object == object
                    &&& get.key@ == KeyView::Named(
                        old(vm)@.frame().code_block.ic@[self.ic_index as int].name@,
                    )
                    &&& get.receiver == self.object
                    &&& final(vm)@ == old(vm)@
                },
                Err(error) => next == Next::<PropertyGet>::Done(1) && final(vm)@ == old(
                    vm,
                )@.raise(error@),
            },
    {
        match object {
            Ok(object) => {
                let name = vm.frame().code_block.ic[self.ic_index as usize].name.clone();
                Next::Ask(
                    PropertyGet {
                        dst: self.dst,
                        object,
                        key: PropertyKey::Named(name),
                        receiver: self.object,
                    },
                )
            },
            Err(error) => {
                vm.raise(error);
                Next::Done(1)
            },
        }
    }
}

/// Asks to call a getter.
#[derive(Clone, Copy, Debug, PartialEq, Eq, Structural)]
pub struct GetterCall {
    pub dst: u32,
    pub getter: u64,
    pub this: JsValue,
}

impl GetterCall {
    /// Stores what the getter returned. Returns 0 on success, 1 on exception.
    pub fn resume(self, vm: &mut Vm, result: Result<JsValue, JsError>) -> (code: u64)
        requires
            result is Ok ==> old(vm)@.has_register(self.dst),
        ensures
            code == status(result),
            final(vm)@ == result_stored(old(vm)@, self.dst, result),
    {
        store_result(vm, self.dst, result)
    }
}

/// What reading a property by name may ask for.
#[derive(Debug)]
pub enum NamedRequest {
    /// The value is not an object and has to be converted.
    ToObject(NamedGet),
    /// The inline cache does not know the shape of the object.
    Get(PropertyGet),
    /// The inline cache knows the property, which has a getter.
    CallGetter(GetterCall),
}

impl VmState {
    /// The slot that an inline cache of the running code has for an object.
    pub open spec fn ic_slot(self, heap: Heap, ic_index: u32, object: u64) -> Option<Slot> {
        cached_slot(
            self.frame().code_block.ic@[ic_index as int].entries@,
            heap.objects@[object as int].shape,
        )
    }
}

/// `obj.prop` read with inline cache. The status is 0 on success, 1 on exception.
///
/// Implements: `GetPropertyByName { dst, object, ic_index }`
pub fn jit_get_property_by_name(
    vm: &mut Vm,
    heap: &Heap,
    dst: u32,
    object: u32,
    ic_index: u32,
) -> (next: Next<NamedRequest>)
    requires
        old(vm)@.has_register(object),
        old(vm)@.register(object) matches JsValue::Object(o) ==> {
            &&& o < heap.objects@.len()
            &&& ic_index < old(vm)@.frame().code_block.ic@.len()
            &&& old(vm)@.ic_slot(*heap, ic_index, o) matches Some(slot) ==> {
                &&& heap.has_slot(o, slot)
                &&& slot.get && heap.slot_value(o, slot) is Object || old(vm)@.has_register(dst)
            }
        },
    ensures
        ({
            let value = old(vm)@.register(object);
            match value {
                JsValue::Object(o) => match old(vm)@.ic_slot(*heap, ic_index, o) {
                    Some(slot) => {
                        let found = heap.slot_value(o, slot);
                        if slot.get && found is Object {
                            &&& next == Next::Ask(
                                NamedRequest::CallGetter(
                                    GetterCall { dst, getter: found->Object_0, this: value },
                                ),
                            )
                            &&& final(vm)@ == old(vm)@
                        } else {
                            &&& next == Next::<NamedRequest>::Done(0)
                            &&& final(vm)@ == old(vm)@.set_register(dst, found)
                        }
                    },
                    None => {
                        &&& next matches Next::Ask(NamedRequest::Get(get))
                        &&& get.dst == dst
                        &&& get.object == o
                        &&& get.key@ == KeyView::Named(
                            old(vm)@.frame().code_block.ic@[ic_index as int].name@,
                        )
                        &&& get.receiver == value
                        &&& final(vm)@ == old(vm)@
                    },
                },
                _ => {
                    &&& next == Next::Ask(
                        NamedRequest::ToObject(NamedGet { dst, object: value, ic_index }),
                    )
                    &&& final(vm)@ == old(vm)@
                },
            }
        }),
        old(vm)@.register(object) matches JsValue::Object(o) ==> old(vm)@.ic_slot(
            *heap,
            ic_index,
            o,
        ) matches Some(slot) ==> !slot.get && !slot.prototype ==> final(vm).stack@
            == old(vm).stack@.update(
            old(vm).frames@.last().rp + dst,
            heap.objects@[o as int].storage@[slot.index as int],
        ),
{
    let object_val = vm.get_register(object);
    let object_obj: u64 = match object_val.as_object() {
        Some(object_obj) => object_obj,
        // Not an object: fall through to the slow path.
        None => {
            return Next::Ask(
                NamedRequest::ToObject(NamedGet { dst, object: object_val, ic_index }),
            );
        },
    };

    // Fast path: check the inline cache.
    assert(heap.objects.len() == heap.objects@.len());
    let shape = heap.objects[object_obj as usize].shape;
    let cached = vm.frame().code_block.ic[ic_index as usize].get(shape);
    if let Some(slot) = cached {
        let result = heap.get_slot(object_obj, slot);
        if slot.get {
            if let Some(getter) = result.as_object() {
                return Next::Ask(
                    NamedRequest::CallGetter(GetterCall { dst, getter, this: object_val }),
                );
            }
        }
        vm.set_register(dst, result);
        return Next::Done(0);
    }

    // Cache miss: full lookup.
    let name = vm.frame().code_block.ic[ic_index as usize].name.clone();
    Next::Ask(
        NamedRequest::Get(
            PropertyGet {
                dst,
                object: object_obj,
                key: PropertyKey::Named(name),
                receiver: object_val,
            },
        ),
    )
}

/// Asks to convert a value to an object, for reading its length.
#[derive(Clone, Copy, Debug, PartialEq, Eq, Structural)]
pub struct LengthGet {
    pub dst: u32,
    pub object: JsValue,
}

impl LengthGet {
    /// Goes on with the object. Its length is read next, with the value itself as the
    /// receiver.
    pub fn on_object(self, vm: &mut Vm, object: Result<u64, JsError>) -> (next: Next<PropertyGet>)
        ensures
            match object {
                Ok(object) => {
                    &&& next matches Next::Ask(get)
                    &&& get.dst == self.dst
                    &&& get.object == object
                    &&& get.key@ == KeyView::Named("length"@)
                    &&& get.receiver == self.object
                    &&& final(vm)@ == old(vm)@
                },
                Err(error) => next == Next::<PropertyGet>::Done(1) && final(vm)@ == old(
                    vm,
                )@.raise(error@),
            },
    {
        match object {
            Ok(object) => Next::Ask(
                PropertyGet {
                    dst: self.dst,
                    object,
                    key: PropertyKey::Named("length".to_string()),
                    receiver: self.object,
                },
            ),
            Err(error) => {
                vm.raise(error);
                Next::Done(1)
            },
        }
    }
}

/// `obj.length` read (specialized). The status is 0 on success, 1 on exception. The
/// inline cache is not used.
///
/// Implements: `GetLengthProperty { dst, object, ic_index }`
pub fn jit_get_length_property(vm: &Vm, dst: u32, object: u32, _ic_index: u32) -> (request:
    LengthGet)
    requires
        vm@.has_register(object),
    ensures
        request == (LengthGet { dst, object: vm@.register(object) }),
{
    LengthGet { dst, object: vm.get_register(object) }
}

/// A slot of an object of its own is the element of its storage with the number of the slot.
pub proof fn own_slot_is_in_own_storage(heap: Heap, object: u64, slot: Slot)
    requires
        !slot.prototype,
        object < heap.objects@.len(),
    ensures
        heap.has_slot(object, slot) <==> slot.index
            < heap.objects@[object as int].storage@.len(),
        heap.slot_value(object, slot)
            == heap.objects@[object as int].storage@[slot.index as int],
{
}

/// A slot that belongs to the prototype is the element of the prototype's storage with the
/// number of the slot, whatever the object itself holds.
pub proof fn inherited_slot_is_in_storage_of_prototype(
    heap: Heap,
    object: u64,
    prototype: u64,
    slot: Slot,
)
    requires
        slot.prototype,
        object < heap.objects@.len(),
        heap.objects@[object as int].prototype == Some(prototype),
        prototype < heap.objects@.len(),
    ensures
        heap.has_slot(object, slot) <==> slot.index
            < heap.objects@[prototype as int].storage@.len(),
        heap.slot_value(object, slot)
            == heap.objects@[prototype as int].storage@[slot.index as int],
{
}

/// Without a prototype there is no slot that belongs to it.
pub proof fn no_slot_without_prototype(heap: Heap, object: u64, slot: Slot)
    requires
        slot.prototype,
        object < heap.objects@.len(),
        heap.objects@[object as int].prototype is None,
    ensures
        !heap.has_slot(object, slot),
{
}

/// Where the inline cache knows the shape of an object, the cached slot is that of the first
/// entry with this shape.
pub proof fn inline_cache_goes_by_shape(vm: VmState, heap: Heap, ic_index: u32, object: u64)
    ensures
        ({
            let entries = vm.frames.last().code_block.ic@[ic_index as int].entries@;
            let shape = heap.objects@[object as int].shape;
            match vm.ic_slot(heap, ic_index, object) {
                Some(slot) => exists|i: int|
                    0 <= i < entries.len() && #[trigger] entries[i].slot == slot
                        && entries[i].shape == shape && forall|j: int|
                        0 <= j < i ==> (#[trigger] entries[j]).shape != shape,
                None => forall|i: int|
                    0 <= i < entries.len() ==> (#[trigger] entries[i]).shape != shape,
            }
        }),
{
    let entries = vm.frames.last().code_block.ic@[ic_index as int].entries@;
    first_entry_counts(entries, heap.objects@[object as int].shape);
}

/// A key as a mathematical value has all that the key has.
pub proof fn keys_keep_their_contents(name: String, key: u64)
    ensures
        PropertyKey::Named(name)@ == KeyView::Named(name@),
        PropertyKey::Computed(key)@ == KeyView::Computed(key),
{
}

} // verus!
