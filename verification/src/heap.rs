//! The managed heap of pair cells.
//!
//! A cell has two slots, head and tail, that are read and replaced in place
//! through the heap. A [`ConsCell`] names a cell without owning it, so any
//! number of values may refer to one cell, and a slot of a cell may lead back
//! to the cell itself.

use vstd::prelude::*;
use crate::cell::ConsCell;
use crate::value::Value;

verus! {

/// The two slots of a pair cell.
#[derive(Debug, PartialEq, Eq)]
pub struct ConsCellData {
    pub car: Value,
    pub cdr: Value,
}

/// The heap that allocates pair cells and keeps them for the values that
/// refer to them.
#[derive(Debug)]
pub struct Heap {
    cells: Vec<ConsCellData>,
}

impl View for Heap {
    type V = Seq<ConsCellData>;

    /// The cells in the order of their allocation: the cell that a reference
    /// `c` names is the one in position `c.id()`.
    closed spec fn view(&self) -> Seq<ConsCellData> {
        self.cells@
    }
}

impl Heap {
    /// Whether `c` names a cell of this heap.
    pub open spec fn live(self, c: ConsCell) -> bool {
        c.id() < self@.len()
    }

    /// The contents of the head slot of `c`.
    pub open spec fn head(self, c: ConsCell) -> Value
        recommends
            self.live(c),
    {
        self@[c.id() as int].car
    }

    /// The contents of the tail slot of `c`.
    pub open spec fn tail(self, c: ConsCell) -> Value
        recommends
            self.live(c),
    {
        self@[c.id() as int].cdr
    }

    /// The cells after one more cell with the given slots has been allocated.
    pub open spec fn with_cell(self, head: Value, tail: Value) -> Seq<ConsCellData> {
        self@.push(ConsCellData { car: head, cdr: tail })
    }

    /// The cells after the head slot of `c` has been replaced by `v`.
    pub open spec fn with_head(self, c: ConsCell, v: Value) -> Seq<ConsCellData>
        recommends
            self.live(c),
    {
        self@.update(c.id() as int, ConsCellData { car: v, cdr: self.tail(c) })
    }

    /// The cells after the tail slot of `c` has been replaced by `v`.
    pub open spec fn with_tail(self, c: ConsCell, v: Value) -> Seq<ConsCellData>
        recommends
            self.live(c),
    {
        self@.update(c.id() as int, ConsCellData { car: self.head(c), cdr: v })
    }

    /// A heap without cells.
    pub fn new() -> (heap: Heap)
        ensures
            heap@.len() == 0,
    {
        Heap { cells: Vec::new() }
    }

    /// The number of cells allocated so far.
    pub fn len(&self) -> (n: usize)
        ensures
            n == self@.len(),
    {
        self.cells.len()
    }

    /// Whether `c` names a cell of this heap.
    pub fn contains(&self, c: ConsCell) -> (b: bool)
        ensures
            b == self.live(c),
    {
        c.index() < self.cells.len()
    }

    /// Allocates a new cell with the given slot contents and returns the
    /// reference to it. No cell that exists is moved or changed.
    pub fn allocate(&mut self, head: Value, tail: Value) -> (c: ConsCell)
        ensures
            c.id() == old(self)@.len(),
            final(self)@ == old(self).with_cell(head, tail),
    {
        let c = ConsCell::at(self.cells.len());
        self.cells.push(ConsCellData { car: head, cdr: tail });
        c
    }

    /// A copy of the head slot of `c`, or `None` where `c` names no cell of
    /// this heap.
    pub fn get_head(&self, c: ConsCell) -> (v: Option<Value>)
        ensures
            v == (if self.live(c) {
                Some(self.head(c))
            } else {
                None
            }),
    {
        let i: usize = c.index();
        if i < self.cells.len() {
            Some(self.cells[i].car.clone())
        } else {
            None
        }
    }

    /// A copy of the tail slot of `c`, or `None` where `c` names no cell of
    /// this heap.
    pub fn get_tail(&self, c: ConsCell) -> (v: Option<Value>)
        ensures
            v == (if self.live(c) {
                Some(self.tail(c))
            } else {
                None
            }),
    {
        let i: usize = c.index();
        if i < self.cells.len() {
            Some(self.cells[i].cdr.clone())
        } else {
            None
        }
    }

    /// The cells that the head slot and the tail slot of `c` refer to
    /// directly. Where `c` names no cell of this heap there are none.
    pub fn targets(&self, c: ConsCell) -> (t: (Option<ConsCell>, Option<ConsCell>))
        ensures
            self.live(c) ==> t.0 == self.head(c).referent() && t.1 == self.tail(c).referent(),
            !self.live(c) ==> t.0 is None && t.1 is None,
    {
        let i: usize = c.index();
        if i < self.cells.len() {
            (self.cells[i].car.trace(), self.cells[i].cdr.trace())
        } else {
            (None, None)
        }
    }

    /// Replaces the head slot of `c` in place. Where `c` names no cell of this
    /// heap nothing changes and `v` is handed back.
    pub fn set_head(&mut self, c: ConsCell, v: Value) -> (r: Result<(), Value>)
        ensures
            old(self).live(c) ==> r == Ok::<(), Value>(()) && final(self)@ == old(self).with_head(c, v),
            !old(self).live(c) ==> r == Err::<(), Value>(v) && final(self)@ == old(self)@,
    {
        let i: usize = c.index();
        if i < self.cells.len() {
            self.cells[i].car = v;
            Ok(())
        } else {
            Err(v)
        }
    }

    /// Replaces the tail slot of `c` in place. Where `c` names no cell of this
    /// heap nothing changes and `v` is handed back.
    pub fn set_tail(&mut self, c: ConsCell, v: Value) -> (r: Result<(), Value>)
        ensures
            old(self).live(c) ==> r == Ok::<(), Value>(()) && final(self)@ == old(self).with_tail(c, v),
            !old(self).live(c) ==> r == Err::<(), Value>(v) && final(self)@ == old(self)@,
    {
        let i: usize = c.index();
        if i < self.cells.len() {
            self.cells[i].cdr = v;
            Ok(())
        } else {
            Err(v)
        }
    }
}

} // verus!
