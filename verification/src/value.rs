//! The tagged value: empty, an atom, or a reference to a pair cell.

use vstd::prelude::*;
use crate::atom::{Atomic, ErasedHandle, TypeTag};
use crate::cell::ConsCell;
use crate::heap::Heap;

verus! {

/// A dynamically typed value. A value keeps its variant for its whole life:
/// replacing a slot of a pair changes the cell, never the value that refers
/// to it.
#[derive(Debug, PartialEq, Eq)]
pub enum Value {
    /// The empty value, which ends a list.
    Nil,
    /// One opaque payload, owned by this value alone.
    Atom(ErasedHandle),
    /// A reference to a pair cell, shared with every other value that refers
    /// to the same cell.
    Cons(ConsCell),
}

impl Clone for Value {
    /// An atom is cloned into an independent duplicate of its payload; a pair
    /// is cloned into a second reference to the same cell.
    fn clone(&self) -> (v: Value)
        ensures
            v == *self,
    {
        match self {
            Value::Nil => Value::Nil,
            Value::Atom(h) => Value::Atom(h.duplicate()),
            Value::Cons(c) => Value::Cons(*c),
        }
    }
}

impl Value {
    /// The handle of an atom.
    pub open spec fn handle(self) -> Option<ErasedHandle> {
        match self {
            Value::Atom(h) => Some(h),
            _ => None,
        }
    }

    /// The type identity of an atom's payload.
    pub open spec fn type_identity(self) -> Option<TypeTag> {
        match self {
            Value::Atom(h) => Some(h.type_tag()),
            _ => None,
        }
    }

    /// The payload of an atom that wraps a value of type `T`.
    pub open spec fn payload<T: Atomic>(self) -> Option<T> {
        match self {
            Value::Atom(h) => T::recover(h),
            _ => None,
        }
    }

    /// The pair cell that this value refers to directly: the cell of a pair,
    /// or the cell that the payload of an atom holds a reference to.
    pub open spec fn referent(self) -> Option<ConsCell> {
        match self {
            Value::Nil => None,
            Value::Atom(h) => h.referent(),
            Value::Cons(c) => Some(c),
        }
    }

    /// The cell of a pair that `heap` holds.
    pub open spec fn pair_in(self, heap: Heap) -> Option<ConsCell> {
        match self {
            Value::Cons(c) if heap.live(c) => Some(c),
            _ => None,
        }
    }

    /// What `car` yields: the head slot of a pair, nothing for any other
    /// value.
    pub open spec fn car_in(self, heap: Heap) -> Option<Value> {
        match self.pair_in(heap) {
            Some(c) => Some(heap.head(c)),
            None => None,
        }
    }

    /// What `cdr` yields: the tail slot of a pair, nothing for any other
    /// value.
    pub open spec fn cdr_in(self, heap: Heap) -> Option<Value> {
        match self.pair_in(heap) {
            Some(c) => Some(heap.tail(c)),
            None => None,
        }
    }

    /// Whether this is the empty value.
    pub fn is_nil(&self) -> (b: bool)
        ensures
            b == (*self is Nil),
    {
        match self {
            Value::Nil => true,
            _ => false,
        }
    }

    /// Whether this is an atom.
    pub fn is_atom(&self) -> (b: bool)
        ensures
            b == (*self is Atom),
    {
        match self {
            Value::Atom(_) => true,
            _ => false,
        }
    }

    /// Whether this is a pair.
    pub fn is_cons(&self) -> (b: bool)
        ensures
            b == (*self is Cons),
    {
        match self {
            Value::Cons(_) => true,
            _ => false,
        }
    }

    /// A new handle around an independent duplicate of an atom's payload, and
    /// `None` for a value that is no atom.
    pub fn atom_clone(&self) -> (d: Option<ErasedHandle>)
        ensures
            d == self.handle(),
    {
        match self {
            Value::Atom(h) => Some(h.duplicate()),
            _ => None,
        }
    }

    /// The type identity of an atom's payload, and `None` for a value that is
    /// no atom.
    pub fn atom_get_type_id(&self) -> (t: Option<TypeTag>)
        ensures
            t == self.type_identity(),
    {
        match self {
            Value::Atom(h) => Some(h.type_identity()),
            _ => None,
        }
    }

    /// A reference to the payload of an atom that wraps a value of type `T`.
    /// For an atom of any other type, and for a value that is no atom, the
    /// result is `None`.
    pub fn atom_downcast_ref<T: Atomic>(&self) -> (r: Option<&T>)
        ensures
            r is Some <==> self.type_identity() == Some(T::type_tag()),
            match r {
                Some(v) => *self == atom_of(*v) && self.payload::<T>() == Some(*v),
                None => self.payload::<T>() is None,
            },
    {
        match self {
            Value::Atom(h) => h.downcast_ref::<T>(),
            _ => None,
        }
    }

    /// A mutable reference to the payload of an atom that wraps a value of
    /// type `T`. For an atom of any other type, and for a value that is no
    /// atom, the result is `None` and the value is left as it was. Through the
    /// reference the payload can be replaced by another value of type `T`; the
    /// value stays an atom of that type.
    pub fn atom_downcast_mut<T: Atomic>(&mut self) -> (r: Option<&mut T>)
        ensures
            r is Some <==> old(self).type_identity() == Some(T::type_tag()),
            match r {
                Some(v) => {
                    &&& *old(self) == atom_of(*v)
                    &&& old(self).payload::<T>() == Some(*v)
                    &&& *final(self) == atom_of(*final(v))
                    &&& final(self).payload::<T>() == Some(*final(v))
                    &&& final(self).type_identity() == old(self).type_identity()
                },
                None => old(self).payload::<T>() is None && *final(self) == *old(self),
            },
    {
        match self {
            Value::Atom(h) => h.downcast_mut::<T>(),
            _ => None,
        }
    }

    /// What this value hands to a trace pass: nothing for the empty value,
    /// what the handle's own tracing reports for an atom, the cell for a pair.
    pub fn trace(&self) -> (c: Option<ConsCell>)
        ensures
            c == self.referent(),
    {
        match self {
            Value::Nil => None,
            Value::Atom(h) => h.trace(),
            Value::Cons(c) => Some(*c),
        }
    }

    /// A copy of the head slot of a pair. The result is `None` exactly when
    /// this value is no pair of `heap`.
    pub fn car(&self, heap: &Heap) -> (v: Option<Value>)
        ensures
            v == self.car_in(*heap),
            !(*self is Cons) ==> v is None,
    {
        match self {
            Value::Cons(c) => heap.get_head(*c),
            _ => None,
        }
    }

    /// A copy of the tail slot of a pair. The result is `None` exactly when
    /// this value is no pair of `heap`.
    pub fn cdr(&self, heap: &Heap) -> (v: Option<Value>)
        ensures
            v == self.cdr_in(*heap),
            !(*self is Cons) ==> v is None,
    {
        match self {
            Value::Cons(c) => heap.get_tail(*c),
            _ => None,
        }
    }

    /// Replaces the head slot of a pair in place. The cell stays the same
    /// cell, so the new contents are seen through every value that refers to
    /// it. For a value that is no pair of `heap` nothing changes and `v` is
    /// handed back.
    pub fn set_car(&self, heap: &mut Heap, v: Value) -> (r: Result<(), Value>)
        ensures
            match self.pair_in(*old(heap)) {
                Some(c) => r == Ok::<(), Value>(()) && final(heap)@ == old(heap).with_head(c, v),
                None => r == Err::<(), Value>(v) && final(heap)@ == old(heap)@,
            },
            !(*self is Cons) ==> r == Err::<(), Value>(v),
    {
        match self {
            Value::Cons(c) => heap.set_head(*c, v),
            _ => Err(v),
        }
    }

    /// Replaces the tail slot of a pair in place. The cell stays the same
    /// cell, so the new contents are seen through every value that refers to
    /// it. For a value that is no pair of `heap` nothing changes and `v` is
    /// handed back.
    pub fn set_cdr(&self, heap: &mut Heap, v: Value) -> (r: Result<(), Value>)
        ensures
            match self.pair_in(*old(heap)) {
                Some(c) => r == Ok::<(), Value>(()) && final(heap)@ == old(heap).with_tail(c, v),
                None => r == Err::<(), Value>(v) && final(heap)@ == old(heap)@,
            },
            !(*self is Cons) ==> r == Err::<(), Value>(v),
    {
        match self {
            Value::Cons(c) => heap.set_tail(*c, v),
            _ => Err(v),
        }
    }
}

/// The atom that wraps `value`.
pub open spec fn atom_of<T: Atomic>(value: T) -> Value {
    Value::Atom(value.erased())
}

/// Whether `pair` and `after` are what `cons` makes of `car` and `cdr` in
/// `heap`: one more cell that holds the two, every earlier cell as it was, and
/// a pair that refers to the new cell.
pub open spec fn is_cons_of(pair: Value, after: Heap, heap: Heap, car: Value, cdr: Value) -> bool {
    &&& pair matches Value::Cons(c) && c.id() == heap@.len()
    &&& after@ == heap.with_cell(car, cdr)
}

/// The empty value.
pub fn nil() -> (v: Value)
    ensures
        v == Value::Nil,
{
    Value::Nil
}

/// An atom that wraps `value`. Any value of a type that is [`Atomic`] can be
/// wrapped.
pub fn atom<T: Atomic>(value: T) -> (v: Value)
    ensures
        v == atom_of(value),
        v.payload::<T>() == Some(value),
        v.type_identity() == Some(T::type_tag()),
        v.referent() == value.held_cell(),
{
    Value::Atom(ErasedHandle::wrap(value))
}

/// A pair of `car` and `cdr` in a newly allocated cell of `heap`. No cell
/// that exists is moved or changed.
pub fn cons(heap: &mut Heap, car: Value, cdr: Value) -> (v: Value)
    ensures
        is_cons_of(v, *final(heap), *old(heap), car, cdr),
        v.car_in(*final(heap)) == Some(car),
        v.cdr_in(*final(heap)) == Some(cdr),
{
    Value::Cons(heap.allocate(car, cdr))
}

} // verus!
