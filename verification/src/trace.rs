//! Tracing: which pair cells a value leads to.
//!
//! A trace pass starts at a value and follows the slots of every cell it
//! meets. Cells are marked as they are met, so a pass ends on shared and on
//! cyclic structure alike and meets no cell twice.

use vstd::prelude::*;
use crate::cell::ConsCell;
use crate::heap::Heap;
use crate::value::Value;

verus! {

impl Heap {
    /// Whether a slot of cell `a` refers directly to cell `b`, both being
    /// cells of this heap.
    pub open spec fn edge(self, a: ConsCell, b: ConsCell) -> bool {
        &&& self.live(a)
        &&& self.live(b)
        &&& (self.head(a).referent() == Some(b) || self.tail(a).referent() == Some(b))
    }

    /// Whether `path` is a chain of cells of this heap in which each cell
    /// refers directly to the next.
    pub open spec fn is_path(self, path: Seq<ConsCell>) -> bool {
        &&& path.len() > 0
        &&& self.live(path[0])
        &&& forall|i: int|
            #![trigger path[i]]
            0 <= i < path.len() - 1 ==> self.edge(path[i], path[i + 1])
    }

    /// Whether cell `to` can be reached from cell `from` by following slots.
    /// Every cell of the heap reaches itself.
    pub open spec fn reaches(self, from: ConsCell, to: ConsCell) -> bool {
        exists|path: Seq<ConsCell>|
            #![trigger self.is_path(path)]
            self.is_path(path) && path[0] == from && path.last() == to
    }

    /// Whether cell `c` can be reached from `root` by following slots.
    pub open spec fn reachable(self, root: Value, c: ConsCell) -> bool {
        match root.referent() {
            Some(start) => self.reaches(start, c),
            None => false,
        }
    }

    /// A cell of the heap reaches itself.
    pub proof fn lemma_reaches_itself(self, c: ConsCell)
        requires
            self.live(c),
        ensures
            self.reaches(c, c),
    {
        let path = seq![c];
        assert(self.is_path(path));
        assert(path[0] == c && path.last() == c);
    }

    /// What a reached cell refers to is reached as well.
    pub proof fn lemma_reaches_step(self, from: ConsCell, a: ConsCell, b: ConsCell)
        requires
            self.reaches(from, a),
            self.edge(a, b),
        ensures
            self.reaches(from, b),
    {
        let path = choose|path: Seq<ConsCell>|
            #![trigger self.is_path(path)]
            self.is_path(path) && path[0] == from && path.last() == a;
        let longer = path.push(b);
        assert forall|i: int|
            #![trigger longer[i]]
            0 <= i < longer.len() - 1 implies self.edge(longer[i], longer[i + 1]) by {
            if i < path.len() - 1 {
                assert(longer[i] == path[i]);
                assert(longer[i + 1] == path[i + 1]);
            }
        }
        assert(self.is_path(longer));
        assert(longer[0] == from && longer.last() == b);
    }

    /// Only cells of the heap are reached.
    pub proof fn lemma_reaches_live(self, from: ConsCell, to: ConsCell)
        requires
            self.reaches(from, to),
        ensures
            self.live(from),
            self.live(to),
    {
        let path = choose|path: Seq<ConsCell>|
            #![trigger self.is_path(path)]
            self.is_path(path) && path[0] == from && path.last() == to;
        if path.len() > 1 {
            let i: int = path.len() - 2;
            assert(self.edge(path[i], path[i + 1]));
        }
    }

    /// A set of cells that holds `from` and, with each cell, what the cell
    /// refers to, holds every cell reached from `from`.
    proof fn lemma_closed_holds_reached(self, cells: Seq<ConsCell>, from: ConsCell, to: ConsCell)
        requires
            cells.contains(from),
            forall|a: ConsCell, b: ConsCell|
                cells.contains(a) && #[trigger] self.edge(a, b) ==> cells.contains(b),
            self.reaches(from, to),
        ensures
            cells.contains(to),
    {
        let path = choose|path: Seq<ConsCell>|
            #![trigger self.is_path(path)]
            self.is_path(path) && path[0] == from && path.last() == to;
        self.lemma_closed_holds_path(cells, path, path.len() - 1);
    }

    /// Such a set holds each cell of a chain that starts in it.
    proof fn lemma_closed_holds_path(self, cells: Seq<ConsCell>, path: Seq<ConsCell>, k: int)
        requires
            self.is_path(path),
            cells.contains(path[0]),
            forall|a: ConsCell, b: ConsCell|
                cells.contains(a) && #[trigger] self.edge(a, b) ==> cells.contains(b),
            0 <= k < path.len(),
        ensures
            cells.contains(path[k]),
        decreases k,
    {
        if k > 0 {
            self.lemma_closed_holds_path(cells, path, k - 1);
            assert(self.edge(path[k - 1], path[k - 1 + 1]));
        }
    }

    /// The bookkeeping of a pass from `start`: the cells met so far are the
    /// marked ones, each was met once and is reached from `start`, and every
    /// cell whose slots are still to be followed has been met.
    spec fn pass_state(
        self,
        start: ConsCell,
        marks: Seq<bool>,
        visited: Seq<ConsCell>,
        pending: Seq<ConsCell>,
    ) -> bool {
        &&& marks.len() == self@.len()
        &&& visited.no_duplicates()
        &&& forall|c: ConsCell| #[trigger]
            visited.contains(c) <==> self.live(c) && marks[c.id() as int]
        &&& forall|c: ConsCell| #[trigger] visited.contains(c) ==> self.reaches(start, c)
        &&& forall|c: ConsCell| #[trigger] pending.contains(c) ==> visited.contains(c)
    }

    /// Meets `target` unless it names no cell of the heap or has been met
    /// before in this pass.
    fn visit(
        &self,
        Ghost(start): Ghost<ConsCell>,
        target: Option<ConsCell>,
        marks: &mut Vec<bool>,
        visited: &mut Vec<ConsCell>,
        pending: &mut Vec<ConsCell>,
    )
        requires
            self.pass_state(start, old(marks)@, old(visited)@, old(pending)@),
            target matches Some(t) ==> (self.live(t) ==> self.reaches(start, t)),
        ensures
            self.pass_state(start, final(marks)@, final(visited)@, final(pending)@),
            forall|c: ConsCell| old(visited)@.contains(c) ==> #[trigger] final(visited)@.contains(c),
            forall|c: ConsCell| old(pending)@.contains(c) ==> #[trigger] final(pending)@.contains(c),
            forall|c: ConsCell| #[trigger]
                final(visited)@.contains(c) ==> old(visited)@.contains(c)
                    || final(pending)@.contains(c),
            target matches Some(t) ==> (self.live(t) ==> final(visited)@.contains(t)),
            unmarked(final(marks)@) < unmarked(old(marks)@) || (final(marks)@ == old(marks)@
                && final(visited)@ == old(visited)@ && final(pending)@ == old(pending)@),
            old(visited)@.is_prefix_of(final(visited)@),
            target matches Some(t) ==> (self.live(t) && old(visited)@.len() == 0
                ==> final(visited)@.first() == t),
    {
        match target {
            Some(t) => {
                let i: usize = t.index();
                if i < marks.len() && !marks[i] {
                    proof {
                        lemma_mark_one(marks@, i as int);
                        lemma_push_contains(visited@, t);
                        lemma_push_contains(pending@, t);
                        assert(!visited@.contains(t));
                        lemma_push_fresh(visited@, t);
                    }
                    marks[i] = true;
                    visited.push(t);
                    pending.push(t);
                    proof {
                        assert forall|c: ConsCell| #[trigger]
                            visited@.contains(c) <==> self.live(c) && marks@[c.id() as int] by {
                            if c.id() == t.id() {
                                ConsCell::lemma_id_identifies(c, t);
                            }
                        }
                    }
                } else {
                    assert(self.live(t) ==> visited@.contains(t));
                }
            },
            None => {},
        }
    }

    /// The cells reached from `start`, each once, `start` first.
    fn trace_from(&self, start: ConsCell) -> (visited: Vec<ConsCell>)
        requires
            self.live(start),
        ensures
            visited@.no_duplicates(),
            forall|c: ConsCell| #[trigger] visited@.contains(c) <==> self.reaches(start, c),
            visited@.len() > 0 && visited@.first() == start,
    {
        let n: usize = self.len();
        let mut marks: Vec<bool> = Vec::new();
        while marks.len() < n
            invariant
                marks@.len() <= n,
                forall|i: int| 0 <= i < marks@.len() ==> !marks@[i],
            decreases n - marks.len(),
        {
            marks.push(false);
        }
        let mut visited: Vec<ConsCell> = Vec::new();
        let mut pending: Vec<ConsCell> = Vec::new();
        proof {
            self.lemma_reaches_itself(start);
        }
        self.visit(Ghost(start), Some(start), &mut marks, &mut visited, &mut pending);
        while pending.len() > 0
            invariant
                self.pass_state(start, marks@, visited@, pending@),
                visited@.contains(start),
                visited@.len() > 0 && visited@.first() == start,
                forall|a: ConsCell, b: ConsCell|
                    visited@.contains(a) && !pending@.contains(a) && #[trigger] self.edge(a, b)
                        ==> visited@.contains(b),
            decreases unmarked(marks@), pending@.len(),
        {
            let ghost visited_before = visited@;
            let ghost pending_before = pending@;
            let c = pending.pop().unwrap();
            let ghost pending_popped = pending@;
            let (head, tail) = self.targets(c);
            proof {
                lemma_push_contains(pending_popped, c);
                assert(pending_before =~= pending_popped.push(c));
                assert(pending_before.contains(c));
                assert(visited@.contains(c));
                assert forall|x: ConsCell| #[trigger]
                    pending_popped.contains(x) implies visited@.contains(x) by {
                    assert(pending_before.contains(x));
                }
                if head is Some && self.live(head.unwrap()) {
                    self.lemma_reaches_step(start, c, head.unwrap());
                }
                if tail is Some && self.live(tail.unwrap()) {
                    self.lemma_reaches_step(start, c, tail.unwrap());
                }
            }
            self.visit(Ghost(start), head, &mut marks, &mut visited, &mut pending);
            self.visit(Ghost(start), tail, &mut marks, &mut visited, &mut pending);
            proof {
                assert forall|a: ConsCell, b: ConsCell|
                    visited@.contains(a) && !pending@.contains(a)
                        && #[trigger] self.edge(a, b) implies visited@.contains(b) by {
                    if a == c {
                    } else {
                        assert(visited_before.contains(a));
                        assert(!pending_popped.contains(a));
                        assert(!pending_before.contains(a));
                        assert(visited_before.contains(b));
                    }
                }
            }
        }
        proof {
            assert forall|c: ConsCell| self.reaches(start, c) implies visited@.contains(c) by {
                self.lemma_closed_holds_reached(visited@, start, c);
            }
        }
        visited
    }

    /// A trace pass from `root`: every cell of the heap that `root` leads to,
    /// each exactly once, whatever the cells share and however they are
    /// linked, cycles included.
    pub fn trace(&self, root: &Value) -> (visited: Vec<ConsCell>)
        ensures
            visited@.no_duplicates(),
            forall|c: ConsCell| #[trigger] visited@.contains(c) <==> self.reachable(*root, c),
            match root.referent() {
                Some(start) if self.live(start) => visited@.len() > 0 && visited@.first() == start,
                _ => visited@.len() == 0,
            },
    {
        match root.trace() {
            Some(start) => {
                if self.contains(start) {
                    self.trace_from(start)
                } else {
                    proof {
                        assert forall|c: ConsCell| !self.reaches(start, c) by {
                            if self.reaches(start, c) {
                                self.lemma_reaches_live(start, c);
                            }
                        }
                    }
                    Vec::new()
                }
            },
            None => Vec::new(),
        }
    }
}

/// The number of entries that are not marked.
spec fn unmarked(marks: Seq<bool>) -> nat
    decreases marks.len(),
{
    if marks.len() == 0 {
        0
    } else {
        unmarked(marks.drop_last()) + if marks.last() {
            0nat
        } else {
            1nat
        }
    }
}

/// Marking one entry that was not marked leaves one entry fewer unmarked.
proof fn lemma_mark_one(marks: Seq<bool>, i: int)
    requires
        0 <= i < marks.len(),
        !marks[i],
    ensures
        unmarked(marks.update(i, true)) + 1 == unmarked(marks),
    decreases marks.len(),
{
    let after = marks.update(i, true);
    if i == marks.len() - 1 {
        assert(after.drop_last() =~= marks.drop_last());
    } else {
        lemma_mark_one(marks.drop_last(), i);
        assert(after.drop_last() =~= marks.drop_last().update(i, true));
    }
}

/// A sequence with `x` pushed holds what it held before, and `x`.
proof fn lemma_push_contains<A>(s: Seq<A>, x: A)
    ensures
        forall|y: A| #[trigger] s.push(x).contains(y) <==> s.contains(y) || y == x,
{
    let t = s.push(x);
    assert forall|y: A| #[trigger] t.contains(y) <==> s.contains(y) || y == x by {
        if s.contains(y) {
            let i: int = choose|i: int| 0 <= i < s.len() && s[i] == y;
            assert(t[i] == y);
        }
        if y == x {
            assert(t[s.len() as int] == y);
        }
    }
}

/// Pushing an element that a sequence does not hold repeats nothing.
proof fn lemma_push_fresh<A>(s: Seq<A>, x: A)
    requires
        s.no_duplicates(),
        !s.contains(x),
    ensures
        s.push(x).no_duplicates(),
{
}

} // verus!
