//! The objects that AML code computes with, and the arena that owns them.
//!
//! An object is often reached through references that others hold too, and
//! yet has to be changed now and then. Objects that must be changeable
//! live in an arena and are named by handles: whoever holds the arena
//! exclusively may change any object in it, and a handle can be copied
//! freely without giving access to anything.

use std::sync::Arc;
use vstd::prelude::*;

verus! {

#[derive(Debug)]
pub enum Object {
    Uninitialized,
    Buffer(Vec<u8>),
    BufferField,
    Device,
    Event,
    FieldUnit,
    Integer(u64),
    Method,
    Mutex,
    Reference(Arc<Object>),
    OpRegion,
    Package,
    PowerResource,
    Processor,
    RawDataBuffer,
    String,
    ThermalZone,
}

/// The name of an object in an arena.
#[derive(Clone, Copy, Debug, PartialEq, Eq, Structural)]
pub struct ObjectHandle {
    pub index: usize,
}

/// Owns objects and hands out handles to them.
#[derive(Debug)]
pub struct ObjectArena {
    objects: Vec<Object>,
}

impl ObjectArena {
    /// The objects of the arena; a handle's index is a position in this sequence.
    pub closed spec fn view(&self) -> Seq<Object> {
        self.objects@
    }

    /// An arena without objects.
    pub fn new() -> (arena: Self)
        ensures
            arena@ == Seq::<Object>::empty(),
    {
        ObjectArena { objects: Vec::new() }
    }

    /// The number of objects in the arena.
    pub fn len(&self) -> (n: usize)
        ensures
            n == self@.len(),
    {
        self.objects.len()
    }

    /// Moves an object into the arena and returns its handle. The objects
    /// that are already there keep their handles.
    pub fn insert(&mut self, object: Object) -> (handle: ObjectHandle)
        ensures
            final(self)@ == old(self)@.push(object),
            handle.index == old(self)@.len(),
    {
        let index = self.objects.len();
        self.objects.push(object);
        ObjectHandle { index }
    }

    /// The object that a handle names, if it names one of this arena.
    pub fn get(&self, handle: ObjectHandle) -> (object: Option<&Object>)
        ensures
            match object {
                Some(o) => handle.index < self@.len() && *o == self@[handle.index as int],
                None => handle.index >= self@.len(),
            },
    {
        if handle.index < self.objects.len() {
            Some(&self.objects[handle.index])
        } else {
            None
        }
    }

    /// Gives exclusive access to the object that a handle names, if it
    /// names one of this arena. Whatever the caller makes of the object
    /// takes its place in the arena; no other object changes.
    pub fn gain_mut(&mut self, handle: ObjectHandle) -> (object: Option<&mut Object>)
        ensures
            match object {
                Some(o) => {
                    &&& handle.index < old(self)@.len()
                    &&& *o == old(self)@[handle.index as int]
                    &&& final(self)@ == old(self)@.update(handle.index as int, *final(o))
                },
                None => handle.index >= old(self)@.len() && final(self)@ == old(self)@,
            },
    {
        if handle.index < self.objects.len() {
            Some(&mut self.objects[handle.index])
        } else {
            None
        }
    }
}

} // verus!
