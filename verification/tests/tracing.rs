use cons_value::{atom, cons, nil, ConsCell, Heap, Value};

fn cell_of(v: &Value) -> ConsCell {
    match v {
        Value::Cons(c) => *c,
        _ => panic!("not a pair"),
    }
}

#[test]
fn value_hands_its_cell_to_a_pass() {
    let mut heap = Heap::new();
    let p = cons(&mut heap, nil(), nil());
    assert_eq!(nil().trace(), None);
    assert_eq!(atom(1usize).trace(), None);
    assert_eq!(p.trace(), Some(cell_of(&p)));
}

#[test]
fn self_referential_cell_is_met_once() {
    let mut heap = Heap::new();
    let p = cons(&mut heap, atom(1usize), nil());
    assert_eq!(p.set_cdr(&mut heap, p.clone()), Ok(()));
    assert_eq!(heap.trace(&p), vec![cell_of(&p)]);
    assert_eq!(p.set_car(&mut heap, p.clone()), Ok(()));
    assert_eq!(heap.trace(&p), vec![cell_of(&p)]);
}

#[test]
fn pass_follows_a_list_to_its_end() {
    let mut heap = Heap::new();
    let c = cons(&mut heap, atom(3usize), nil());
    let b = cons(&mut heap, atom(2usize), c.clone());
    let a = cons(&mut heap, atom(1usize), b.clone());
    let _unrelated = cons(&mut heap, nil(), nil());
    assert_eq!(
        heap.trace(&a),
        vec![cell_of(&a), cell_of(&b), cell_of(&c)]
    );
    assert_eq!(heap.trace(&b), vec![cell_of(&b), cell_of(&c)]);
    assert_eq!(heap.trace(&c), vec![cell_of(&c)]);
}

#[test]
fn shared_cell_is_met_once() {
    let mut heap = Heap::new();
    let shared = cons(&mut heap, atom(0usize), nil());
    let left = cons(&mut heap, nil(), shared.clone());
    let right = cons(&mut heap, shared.clone(), nil());
    let top = cons(&mut heap, left.clone(), right.clone());
    let mut met = heap.trace(&top);
    assert_eq!(met.len(), 4);
    assert_eq!(met[0], cell_of(&top));
    met.sort_by_key(|c| c.index());
    assert_eq!(
        met,
        vec![
            cell_of(&shared),
            cell_of(&left),
            cell_of(&right),
            cell_of(&top)
        ]
    );
}

#[test]
fn cycle_of_two_cells_ends() {
    let mut heap = Heap::new();
    let a = cons(&mut heap, atom(1usize), nil());
    let b = cons(&mut heap, atom(2usize), a.clone());
    assert_eq!(a.set_cdr(&mut heap, b.clone()), Ok(()));
    assert_eq!(heap.trace(&a), vec![cell_of(&a), cell_of(&b)]);
    assert_eq!(heap.trace(&b), vec![cell_of(&b), cell_of(&a)]);
}

#[test]
fn nil_and_plain_atoms_lead_nowhere() {
    let mut heap = Heap::new();
    let _p = cons(&mut heap, nil(), nil());
    assert_eq!(heap.trace(&nil()), vec![]);
    assert_eq!(heap.trace(&atom(String::from("s"))), vec![]);
}

#[test]
fn pass_follows_a_reference_held_by_an_atom() {
    let mut heap = Heap::new();
    let inner = cons(&mut heap, atom(1usize), nil());
    let holder = atom(cell_of(&inner));
    let outer = cons(&mut heap, holder.clone(), nil());
    assert_eq!(heap.trace(&holder), vec![cell_of(&inner)]);
    assert_eq!(heap.trace(&outer), vec![cell_of(&outer), cell_of(&inner)]);
    assert_eq!(
        heap.targets(cell_of(&outer)),
        (Some(cell_of(&inner)), None)
    );
}

#[test]
fn pass_skips_a_reference_of_another_heap() {
    let mut other = Heap::new();
    let _x = cons(&mut other, nil(), nil());
    let foreign = cons(&mut other, nil(), nil());
    let mut heap = Heap::new();
    let p = cons(&mut heap, foreign.clone(), nil());
    assert_eq!(heap.trace(&foreign), vec![]);
    assert_eq!(heap.trace(&p), vec![cell_of(&p)]);
}
