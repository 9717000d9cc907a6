//! The capability-erasure layer: a uniform handle around one concrete value,
//! with checked recovery of the concrete type.
//!
//! A handle stores its payload under a tag. The only way back to the concrete
//! type goes through a comparison of that tag, so a payload is never read as a
//! type other than the one it was wrapped as.

use vstd::prelude::*;
use crate::cell::ConsCell;
use crate::sealed::Sealed;

verus! {

/// Runtime identity of a concrete payload type.
///
/// Two handles carry the same tag exactly when they wrap the same concrete
/// type.
#[derive(Clone, Copy, Debug, PartialEq, Eq, Hash, Structural)]
pub enum TypeTag {
    Bool,
    Char,
    I64,
    U64,
    Usize,
    Text,
    Cell,
}

impl TypeTag {
    /// The identity of the type `T`.
    pub fn of<T: Atomic>() -> (t: TypeTag)
        ensures
            t == T::type_tag(),
    {
        T::type_identity()
    }
}

#[derive(Debug, PartialEq, Eq)]
enum Payload {
    Bool(bool),
    Char(char),
    I64(i64),
    U64(u64),
    Usize(usize),
    Text(String),
    Cell(ConsCell),
}

/// A uniform wrapper around one concrete value of a type that is [`Atomic`].
#[derive(Debug, PartialEq, Eq)]
pub struct ErasedHandle {
    payload: Payload,
}

/// The capabilities a concrete type needs to be stored as an atom: it can be
/// wrapped into a handle and recovered from one, duplicated, asked for its
/// type identity, and traced.
///
/// The trait is sealed. Its implementations are the ones below, each of them
/// verified, so what is proved of an atomic type holds of every such type.
pub trait Atomic: Sized + Sealed {
    /// The identity of the implementing type.
    spec fn type_tag() -> TypeTag;

    /// The handle that wraps `self`.
    spec fn erased(self) -> ErasedHandle;

    /// The value that `h` wraps, where `h` wraps a value of this type.
    spec fn recover(h: ErasedHandle) -> Option<Self>;

    /// The pair cell that `self` holds a reference to, if any.
    spec fn held_cell(self) -> Option<ConsCell>;

    /// Wrapping keeps the value, records the type and exposes what the value
    /// refers to.
    proof fn lemma_erased(v: Self)
        ensures
            Self::recover(v.erased()) == Some(v),
            v.erased().type_tag() == Self::type_tag(),
            v.erased().referent() == v.held_cell(),
    ;

    /// A handle yields a value of this type exactly when it carries this
    /// type's tag, and then it is the handle of that value.
    proof fn lemma_recover(h: ErasedHandle)
        ensures
            Self::recover(h) is Some <==> h.type_tag() == Self::type_tag(),
            Self::recover(h) is Some ==> Self::recover(h).unwrap().erased() == h,
    ;

    /// The identity of the implementing type.
    fn type_identity() -> (t: TypeTag)
        ensures
            t == Self::type_tag(),
    ;

    /// Wraps `self` into a handle.
    fn erase(self) -> (h: ErasedHandle)
        ensures
            h == self.erased(),
    ;

    /// Wraps an independent duplicate of `self` into a new handle.
    fn clone_and_box(&self) -> (h: ErasedHandle)
        ensures
            h == self.erased(),
    ;

    /// The pair cell that `self` holds a reference to, if any.
    fn trace(&self) -> (c: Option<ConsCell>)
        ensures
            c == self.held_cell(),
    ;

    /// A reference to the payload of `h`, where `h` wraps a value of this
    /// type.
    fn peek(h: &ErasedHandle) -> (r: Option<&Self>)
        ensures
            match r {
                Some(v) => Self::recover(*h) == Some(*v),
                None => Self::recover(*h) is None,
            },
    ;

    /// A mutable reference to the payload of `h`, where `h` wraps a value of
    /// this type. What is written through it is what `h` wraps afterwards.
    fn peek_mut(h: &mut ErasedHandle) -> (r: Option<&mut Self>)
        ensures
            match r {
                Some(v) => {
                    &&& Self::recover(*old(h)) == Some(*v)
                    &&& *final(h) == (*final(v)).erased()
                    &&& Self::recover(*final(h)) == Some(*final(v))
                    &&& final(h).type_tag() == Self::type_tag()
                },
                None => Self::recover(*old(h)) is None && *final(h) == *old(h),
            },
    ;
}

impl ErasedHandle {
    /// The identity of the concrete type that was wrapped.
    pub closed spec fn type_tag(self) -> TypeTag {
        match self.payload {
            Payload::Bool(_) => TypeTag::Bool,
            Payload::Char(_) => TypeTag::Char,
            Payload::I64(_) => TypeTag::I64,
            Payload::U64(_) => TypeTag::U64,
            Payload::Usize(_) => TypeTag::Usize,
            Payload::Text(_) => TypeTag::Text,
            Payload::Cell(_) => TypeTag::Cell,
        }
    }

    /// The pair cell that the payload holds a reference to, if any.
    pub closed spec fn referent(self) -> Option<ConsCell> {
        match self.payload {
            Payload::Cell(c) => Some(c),
            _ => None,
        }
    }

    /// Wraps a concrete value. This cannot fail.
    pub fn wrap<T: Atomic>(value: T) -> (h: ErasedHandle)
        ensures
            h == value.erased(),
            h.type_tag() == T::type_tag(),
            h.referent() == value.held_cell(),
            T::recover(h) == Some(value),
    {
        proof {
            T::lemma_erased(value);
        }
        value.erase()
    }

    /// A new handle around an independent duplicate of the payload, of the
    /// same concrete type.
    pub fn duplicate(&self) -> (d: ErasedHandle)
        ensures
            d == *self,
    {
        match &self.payload {
            Payload::Bool(v) => v.clone_and_box(),
            Payload::Char(v) => v.clone_and_box(),
            Payload::I64(v) => v.clone_and_box(),
            Payload::U64(v) => v.clone_and_box(),
            Payload::Usize(v) => v.clone_and_box(),
            Payload::Text(v) => v.clone_and_box(),
            Payload::Cell(v) => v.clone_and_box(),
        }
    }

    /// The identity of the concrete type that was wrapped.
    pub fn type_identity(&self) -> (t: TypeTag)
        ensures
            t == self.type_tag(),
    {
        match &self.payload {
            Payload::Bool(_) => TypeTag::Bool,
            Payload::Char(_) => TypeTag::Char,
            Payload::I64(_) => TypeTag::I64,
            Payload::U64(_) => TypeTag::U64,
            Payload::Usize(_) => TypeTag::Usize,
            Payload::Text(_) => TypeTag::Text,
            Payload::Cell(_) => TypeTag::Cell,
        }
    }

    /// Forwards tracing to the payload: the pair cell that it refers to, if
    /// any.
    pub fn trace(&self) -> (c: Option<ConsCell>)
        ensures
            c == self.referent(),
    {
        match &self.payload {
            Payload::Bool(v) => v.trace(),
            Payload::Char(v) => v.trace(),
            Payload::I64(v) => v.trace(),
            Payload::U64(v) => v.trace(),
            Payload::Usize(v) => v.trace(),
            Payload::Text(v) => v.trace(),
            Payload::Cell(v) => v.trace(),
        }
    }

    /// A reference to the payload if it is of type `T`, and `None` if it is
    /// of any other type.
    pub fn downcast_ref<T: Atomic>(&self) -> (r: Option<&T>)
        ensures
            r is Some <==> self.type_tag() == T::type_tag(),
            match r {
                Some(v) => *self == (*v).erased() && T::recover(*self) == Some(*v),
                None => T::recover(*self) is None,
            },
    {
        proof {
            T::lemma_recover(*self);
        }
        T::peek(self)
    }

    /// A mutable reference to the payload if it is of type `T`, and `None` if
    /// it is of any other type. The handle wraps whatever the payload is when
    /// the reference is given up; without a match it is left as it was.
    pub fn downcast_mut<T: Atomic>(&mut self) -> (r: Option<&mut T>)
        ensures
            r is Some <==> old(self).type_tag() == T::type_tag(),
            match r {
                Some(v) => {
                    &&& *old(self) == (*v).erased()
                    &&& T::recover(*old(self)) == Some(*v)
                    &&& *final(self) == (*final(v)).erased()
                    &&& T::recover(*final(self)) == Some(*final(v))
                    &&& final(self).type_tag() == old(self).type_tag()
                },
                None => T::recover(*old(self)) is None && *final(self) == *old(self),
            },
    {
        proof {
            T::lemma_recover(*self);
        }
        T::peek_mut(self)
    }
}

impl Clone for ErasedHandle {
    fn clone(&self) -> (d: ErasedHandle)
        ensures
            d == *self,
    {
        self.duplicate()
    }
}

impl Atomic for bool {
    open spec fn type_tag() -> TypeTag {
        TypeTag::Bool
    }

    closed spec fn erased(self) -> ErasedHandle {
        ErasedHandle { payload: Payload::Bool(self) }
    }

    closed spec fn recover(h: ErasedHandle) -> Option<bool> {
        match h.payload {
            Payload::Bool(v) => Some(v),
            _ => None,
        }
    }

    open spec fn held_cell(self) -> Option<ConsCell> {
        None
    }

    proof fn lemma_erased(v: bool) {
    }

    proof fn lemma_recover(h: ErasedHandle) {
    }

    fn type_identity() -> (t: TypeTag) {
        TypeTag::Bool
    }

    fn erase(self) -> (h: ErasedHandle) {
        ErasedHandle { payload: Payload::Bool(self) }
    }

    fn clone_and_box(&self) -> (h: ErasedHandle) {
        ErasedHandle { payload: Payload::Bool(*self) }
    }

    fn trace(&self) -> (c: Option<ConsCell>) {
        None
    }

    fn peek(h: &ErasedHandle) -> (r: Option<&bool>) {
        match &h.payload {
            Payload::Bool(v) => Some(v),
            _ => None,
        }
    }

    fn peek_mut(h: &mut ErasedHandle) -> (r: Option<&mut bool>) {
        match &mut h.payload {
            Payload::Bool(v) => Some(v),
            _ => None,
        }
    }
}

impl Atomic for char {
    open spec fn type_tag() -> TypeTag {
        TypeTag::Char
    }

    closed spec fn erased(self) -> ErasedHandle {
        ErasedHandle { payload: Payload::Char(self) }
    }

    closed spec fn recover(h: ErasedHandle) -> Option<char> {
        match h.payload {
            Payload::Char(v) => Some(v),
            _ => None,
        }
    }

    open spec fn held_cell(self) -> Option<ConsCell> {
        None
    }

    proof fn lemma_erased(v: char) {
    }

    proof fn lemma_recover(h: ErasedHandle) {
    }

    fn type_identity() -> (t: TypeTag) {
        TypeTag::Char
    }

    fn erase(self) -> (h: ErasedHandle) {
        ErasedHandle { payload: Payload::Char(self) }
    }

    fn clone_and_box(&self) -> (h: ErasedHandle) {
        ErasedHandle { payload: Payload::Char(*self) }
    }

    fn trace(&self) -> (c: Option<ConsCell>) {
        None
    }

    fn peek(h: &ErasedHandle) -> (r: Option<&char>) {
        match &h.payload {
            Payload::Char(v) => Some(v),
            _ => None,
        }
    }

    fn peek_mut(h: &mut ErasedHandle) -> (r: Option<&mut char>) {
        match &mut h.payload {
            Payload::Char(v) => Some(v),
            _ => None,
        }
    }
}

impl Atomic for i64 {
    open spec fn type_tag() -> TypeTag {
        TypeTag::I64
    }

    closed spec fn erased(self) -> ErasedHandle {
        ErasedHandle { payload: Payload::I64(self) }
    }

    closed spec fn recover(h: ErasedHandle) -> Option<i64> {
        match h.payload {
            Payload::I64(v) => Some(v),
            _ => None,
        }
    }

    open spec fn held_cell(self) -> Option<ConsCell> {
        None
    }

    proof fn lemma_erased(v: i64) {
    }

    proof fn lemma_recover(h: ErasedHandle) {
    }

    fn type_identity() -> (t: TypeTag) {
        TypeTag::I64
    }

    fn erase(self) -> (h: ErasedHandle) {
        ErasedHandle { payload: Payload::I64(self) }
    }

    fn clone_and_box(&self) -> (h: ErasedHandle) {
        ErasedHandle { payload: Payload::I64(*self) }
    }

    fn trace(&self) -> (c: Option<ConsCell>) {
        None
    }

    fn peek(h: &ErasedHandle) -> (r: Option<&i64>) {
        match &h.payload {
            Payload::I64(v) => Some(v),
            _ => None,
        }
    }

    fn peek_mut(h: &mut ErasedHandle) -> (r: Option<&mut i64>) {
        match &mut h.payload {
            Payload::I64(v) => Some(v),
            _ => None,
        }
    }
}

impl Atomic for u64 {
    open spec fn type_tag() -> TypeTag {
        TypeTag::U64
    }

    closed spec fn erased(self) -> ErasedHandle {
        ErasedHandle { payload: Payload::U64(self) }
    }

    closed spec fn recover(h: ErasedHandle) -> Option<u64> {
        match h.payload {
            Payload::U64(v) => Some(v),
            _ => None,
        }
    }

    open spec fn held_cell(self) -> Option<ConsCell> {
        None
    }

    proof fn lemma_erased(v: u64) {
    }

    proof fn lemma_recover(h: ErasedHandle) {
    }

    fn type_identity() -> (t: TypeTag) {
        TypeTag::U64
    }

    fn erase(self) -> (h: ErasedHandle) {
        ErasedHandle { payload: Payload::U64(self) }
    }

    fn clone_and_box(&self) -> (h: ErasedHandle) {
        ErasedHandle { payload: Payload::U64(*self) }
    }

    fn trace(&self) -> (c: Option<ConsCell>) {
        None
    }

    fn peek(h: &ErasedHandle) -> (r: Option<&u64>) {
        match &h.payload {
            Payload::U64(v) => Some(v),
            _ => None,
        }
    }

    fn peek_mut(h: &mut ErasedHandle) -> (r: Option<&mut u64>) {
        match &mut h.payload {
            Payload::U64(v) => Some(v),
            _ => None,
        }
    }
}

impl Atomic for usize {
    open spec fn type_tag() -> TypeTag {
        TypeTag::Usize
    }

    closed spec fn erased(self) -> ErasedHandle {
        ErasedHandle { payload: Payload::Usize(self) }
    }

    closed spec fn recover(h: ErasedHandle) -> Option<usize> {
        match h.payload {
            Payload::Usize(v) => Some(v),
            _ => None,
        }
    }

    open spec fn held_cell(self) -> Option<ConsCell> {
        None
    }

    proof fn lemma_erased(v: usize) {
    }

    proof fn lemma_recover(h: ErasedHandle) {
    }

    fn type_identity() -> (t: TypeTag) {
        TypeTag::Usize
    }

    fn erase(self) -> (h: ErasedHandle) {
        ErasedHandle { payload: Payload::Usize(self) }
    }

    fn clone_and_box(&self) -> (h: ErasedHandle) {
        ErasedHandle { payload: Payload::Usize(*self) }
    }

    fn trace(&self) -> (c: Option<ConsCell>) {
        None
    }

    fn peek(h: &ErasedHandle) -> (r: Option<&usize>) {
        match &h.payload {
            Payload::Usize(v) => Some(v),
            _ => None,
        }
    }

    fn peek_mut(h: &mut ErasedHandle) -> (r: Option<&mut usize>) {
        match &mut h.payload {
            Payload::Usize(v) => Some(v),
            _ => None,
        }
    }
}

impl Atomic for String {
    open spec fn type_tag() -> TypeTag {
        TypeTag::Text
    }

    closed spec fn erased(self) -> ErasedHandle {
        ErasedHandle { payload: Payload::Text(self) }
    }

    closed spec fn recover(h: ErasedHandle) -> Option<String> {
        match h.payload {
            Payload::Text(v) => Some(v),
            _ => None,
        }
    }

    open spec fn held_cell(self) -> Option<ConsCell> {
        None
    }

    proof fn lemma_erased(v: String) {
    }

    proof fn lemma_recover(h: ErasedHandle) {
    }

    fn type_identity() -> (t: TypeTag) {
        TypeTag::Text
    }

    fn erase(self) -> (h: ErasedHandle) {
        ErasedHandle { payload: Payload::Text(self) }
    }

    fn clone_and_box(&self) -> (h: ErasedHandle) {
        ErasedHandle { payload: Payload::Text(self.clone()) }
    }

    fn trace(&self) -> (c: Option<ConsCell>) {
        None
    }

    fn peek(h: &ErasedHandle) -> (r: Option<&String>) {
        match &h.payload {
            Payload::Text(v) => Some(v),
            _ => None,
        }
    }

    fn peek_mut(h: &mut ErasedHandle) -> (r: Option<&mut String>) {
        match &mut h.payload {
            Payload::Text(v) => Some(v),
            _ => None,
        }
    }
}

impl Atomic for ConsCell {
    open spec fn type_tag() -> TypeTag {
        TypeTag::Cell
    }

    closed spec fn erased(self) -> ErasedHandle {
        ErasedHandle { payload: Payload::Cell(self) }
    }

    closed spec fn recover(h: ErasedHandle) -> Option<ConsCell> {
        match h.payload {
            Payload::Cell(v) => Some(v),
            _ => None,
        }
    }

    open spec fn held_cell(self) -> Option<ConsCell> {
        Some(self)
    }

    proof fn lemma_erased(v: ConsCell) {
    }

    proof fn lemma_recover(h: ErasedHandle) {
    }

    fn type_identity() -> (t: TypeTag) {
        TypeTag::Cell
    }

    fn erase(self) -> (h: ErasedHandle) {
        ErasedHandle { payload: Payload::Cell(self) }
    }

    fn clone_and_box(&self) -> (h: ErasedHandle) {
        ErasedHandle { payload: Payload::Cell(*self) }
    }

    fn trace(&self) -> (c: Option<ConsCell>) {
        Some(*self)
    }

    fn peek(h: &ErasedHandle) -> (r: Option<&ConsCell>) {
        match &h.payload {
            Payload::Cell(v) => Some(v),
            _ => None,
        }
    }

    fn peek_mut(h: &mut ErasedHandle) -> (r: Option<&mut ConsCell>) {
        match &mut h.payload {
            Payload::Cell(v) => Some(v),
            _ => None,
        }
    }
}

} // verus!
