//! Identity of a pair cell.

use vstd::prelude::*;

verus! {

/// A shareable reference to a pair cell of a [`crate::heap::Heap`].
///
/// Copying a reference never copies the cell: every copy names the same two
/// slots. A reference is only ever handed out by the heap that allocated the
/// cell, and it stays the same across every later mutation of the slots.
///
/// A reference holds the position of its cell and no record of the heap. A
/// heap that has no cell in that position treats the reference as naming no
/// pair; a heap that has one reads and writes that cell.
#[derive(Clone, Copy, Debug, PartialEq, Eq, Hash, Structural)]
pub struct ConsCell {
    index: usize,
}

impl ConsCell {
    /// The position of the cell in the heap that allocated it.
    pub closed spec fn id(self) -> nat {
        self.index as nat
    }

    /// The reference to the cell in position `index`.
    pub(crate) fn at(index: usize) -> (c: ConsCell)
        ensures
            c.id() == index,
    {
        ConsCell { index }
    }

    /// The position of the cell in the heap that allocated it.
    pub fn index(&self) -> (i: usize)
        ensures
            i == self.id(),
    {
        self.index
    }

    /// Whether two references name the same cell.
    pub fn same_cell(&self, other: &ConsCell) -> (same: bool)
        ensures
            same == (*self == *other),
            same == (self.id() == other.id()),
    {
        self.index == other.index
    }

    /// Two references with the same position are the same reference.
    pub proof fn lemma_id_identifies(a: ConsCell, b: ConsCell)
        requires
            a.id() == b.id(),
        ensures
            a == b,
    {
    }
}

} // verus!
