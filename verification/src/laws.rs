//! What holds of the operations taken together.
//!
//! Each statement is about the values and heaps that the operations' own
//! contracts speak of, so it applies to whatever the operations return.

use vstd::prelude::*;
use crate::atom::Atomic;
use crate::cell::ConsCell;
use crate::heap::Heap;
use crate::value::{atom_of, is_cons_of, Value};

verus! {

/// An atom yields the value that it was made of when it is asked for a payload
/// of that value's type, and it carries the identity of that type.
pub proof fn atom_yields_what_was_wrapped<T: Atomic>(value: T)
    ensures
        atom_of(value).payload::<T>() == Some(value),
        atom_of(value).type_identity() == Some(T::type_tag()),
{
    T::lemma_erased(value);
}

/// An atom yields nothing when it is asked for a payload of a type other than
/// the one it was made of.
pub proof fn atom_yields_no_other_type<T: Atomic, U: Atomic>(value: T)
    requires
        T::type_tag() != U::type_tag(),
    ensures
        atom_of(value).payload::<U>() is None,
{
    T::lemma_erased(value);
    U::lemma_recover(value.erased());
}

/// A payload is found in a value exactly when the value is an atom of the
/// payload's type, and then the value is the atom of that payload.
pub proof fn payload_decides_atom<T: Atomic>(v: Value)
    ensures
        v.payload::<T>() is Some <==> v.type_identity() == Some(T::type_tag()),
        v.payload::<T>() matches Some(p) ==> v == atom_of(p),
{
    if let Value::Atom(h) = v {
        T::lemma_recover(h);
    }
}

/// The clone of an atom is an independent duplicate: it holds the payload
/// that the source had when it was cloned, whatever the source's payload
/// is replaced by afterwards.
pub proof fn clone_of_atom_keeps_its_payload<T: Atomic>(
    source: Value,
    copy: Value,
    payload: T,
    source_later: Value,
    payload_later: T,
)
    requires
        source == atom_of(payload),
        copy == source,
        source_later == atom_of(payload_later),
    ensures
        copy.payload::<T>() == Some(payload),
        source_later.payload::<T>() == Some(payload_later),
{
    T::lemma_erased(payload);
    T::lemma_erased(payload_later);
}

/// The clone of a pair refers to the same cell: a head that is written
/// through either of the two is read through both, and the tail stays.
pub proof fn clone_of_pair_shares_head(
    source: Value,
    copy: Value,
    heap: Heap,
    after: Heap,
    v: Value,
)
    requires
        copy == source,
        source.pair_in(heap) matches Some(c) && after@ == heap.with_head(c, v),
    ensures
        source.car_in(after) == Some(v),
        copy.car_in(after) == Some(v),
        source.cdr_in(after) == source.cdr_in(heap),
        copy.cdr_in(after) == copy.cdr_in(heap),
{
}

/// The clone of a pair refers to the same cell: a tail that is written
/// through either of the two is read through both, and the head stays.
pub proof fn clone_of_pair_shares_tail(
    source: Value,
    copy: Value,
    heap: Heap,
    after: Heap,
    v: Value,
)
    requires
        copy == source,
        source.pair_in(heap) matches Some(c) && after@ == heap.with_tail(c, v),
    ensures
        source.cdr_in(after) == Some(v),
        copy.cdr_in(after) == Some(v),
        source.car_in(after) == source.car_in(heap),
        copy.car_in(after) == copy.car_in(heap),
{
}

/// Writing a slot of one cell changes no other cell, and no value changes its
/// variant or the cell it refers to.
pub proof fn write_leaves_other_cells(heap: Heap, after: Heap, c: ConsCell, v: Value, other: Value)
    requires
        heap.live(c),
        after@ == heap.with_head(c, v) || after@ == heap.with_tail(c, v),
    ensures
        other.pair_in(after) == other.pair_in(heap),
        other.pair_in(heap) != Some(c) ==> other.car_in(after) == other.car_in(heap)
            && other.cdr_in(after) == other.cdr_in(heap),
{
    if let Some(d) = other.pair_in(heap) {
        if d != c {
            if d.id() == c.id() {
                ConsCell::lemma_id_identifies(d, c);
            }
        }
    }
}

/// The head and the tail of a new pair are what the pair was made of, and
/// every pair that existed before reads as it did.
pub proof fn car_cdr_of_cons(
    pair: Value,
    after: Heap,
    heap: Heap,
    car: Value,
    cdr: Value,
    earlier: Value,
)
    requires
        is_cons_of(pair, after, heap, car, cdr),
    ensures
        pair.car_in(after) == Some(car),
        pair.cdr_in(after) == Some(cdr),
        earlier.pair_in(heap) is Some ==> earlier.car_in(after) == earlier.car_in(heap)
            && earlier.cdr_in(after) == earlier.cdr_in(heap),
{
}

/// The empty value and an atom have no slots: nothing is read from them and
/// nothing can be written to them.
pub proof fn only_pairs_have_slots(v: Value, heap: Heap)
    requires
        !(v is Cons),
    ensures
        v.pair_in(heap) is None,
        v.car_in(heap) is None,
        v.cdr_in(heap) is None,
{
}

/// From a cell whose slots lead nowhere but to the cell itself, the cell is
/// all that is reached.
pub proof fn self_reference_reaches_itself_alone(heap: Heap, c: ConsCell, x: ConsCell)
    requires
        heap.live(c),
        heap.head(c).referent() is None || heap.head(c).referent() == Some(c),
        heap.tail(c).referent() is None || heap.tail(c).referent() == Some(c),
    ensures
        heap.reaches(c, x) <==> x == c,
{
    heap.lemma_reaches_itself(c);
    if heap.reaches(c, x) {
        let path = choose|path: Seq<ConsCell>|
            #![trigger heap.is_path(path)]
            heap.is_path(path) && path[0] == c && path.last() == x;
        lemma_path_stays(heap, c, path, path.len() - 1);
    }
}

/// A chain of cells that starts at such a cell never leaves it.
proof fn lemma_path_stays(heap: Heap, c: ConsCell, path: Seq<ConsCell>, k: int)
    requires
        heap.live(c),
        heap.head(c).referent() is None || heap.head(c).referent() == Some(c),
        heap.tail(c).referent() is None || heap.tail(c).referent() == Some(c),
        heap.is_path(path),
        path[0] == c,
        0 <= k < path.len(),
    ensures
        path[k] == c,
    decreases k,
{
    if k > 0 {
        lemma_path_stays(heap, c, path, k - 1);
        assert(heap.edge(path[k - 1], path[k - 1 + 1]));
    }
}

/// A pass from a pair meets the cell of the pair exactly once, whatever the
/// slots of the cell lead to, the cell itself included.
pub proof fn pass_meets_its_pair_once(pair: Value, heap: Heap, visited: Seq<ConsCell>)
    requires
        pair.pair_in(heap) is Some,
        visited.no_duplicates(),
        forall|x: ConsCell| #[trigger] visited.contains(x) <==> heap.reachable(pair, x),
    ensures
        pair matches Value::Cons(c) && visited.contains(c) && forall|i: int, j: int|
            0 <= i < visited.len() && 0 <= j < visited.len() && visited[i] == c && visited[j] == c
                ==> i == j,
{
    heap.lemma_reaches_itself(pair.pair_in(heap).unwrap());
}

/// A pair whose tail has been set to the pair itself, and whose head leads to
/// no other cell, is all that a pass from the pair meets, and the pass meets
/// it exactly once.
pub proof fn pass_over_self_referential_pair(
    pair: Value,
    heap: Heap,
    after: Heap,
    visited: Seq<ConsCell>,
)
    requires
        pair.pair_in(heap) matches Some(c) && after@ == heap.with_tail(c, pair) && {
            ||| heap.head(c).referent() is None
            ||| heap.head(c).referent() == Some(c)
        },
        visited.no_duplicates(),
        forall|x: ConsCell| #[trigger] visited.contains(x) <==> after.reachable(pair, x),
    ensures
        pair matches Value::Cons(c) && visited == seq![c],
{
    let c = pair.pair_in(heap).unwrap();
    assert forall|x: ConsCell| #[trigger] visited.contains(x) <==> x == c by {
        self_reference_reaches_itself_alone(after, c, x);
    }
    pass_over_one_cell(visited, c);
}

/// A pass that meets no cell twice and meets exactly one cell has met that
/// cell exactly once.
pub proof fn pass_over_one_cell(visited: Seq<ConsCell>, c: ConsCell)
    requires
        visited.no_duplicates(),
        forall|x: ConsCell| #[trigger] visited.contains(x) <==> x == c,
    ensures
        visited == seq![c],
{
    assert(visited.contains(c));
    if visited.len() > 1 {
        assert(visited.contains(visited[0]));
        assert(visited.contains(visited[1]));
    }
    assert(visited.len() == 1) by {
        if visited.len() == 0 {
            assert(visited.contains(c));
        }
    }
    assert(visited.contains(visited[0]));
    assert(visited =~= seq![c]);
}

} // verus!
