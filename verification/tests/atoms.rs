use cons_value::{atom, cons, nil, Atomic, ConsCell, ErasedHandle, Heap, TypeTag, Value};

#[test]
fn downcast_ref_returns_the_wrapped_value() {
    assert_eq!(atom(true).atom_downcast_ref::<bool>(), Some(&true));
    assert_eq!(atom('q').atom_downcast_ref::<char>(), Some(&'q'));
    assert_eq!(atom(-3i64).atom_downcast_ref::<i64>(), Some(&-3i64));
    assert_eq!(atom(3u64).atom_downcast_ref::<u64>(), Some(&3u64));
    assert_eq!(atom(3usize).atom_downcast_ref::<usize>(), Some(&3usize));
    assert_eq!(
        atom(String::from("sym")).atom_downcast_ref::<String>(),
        Some(&String::from("sym"))
    );
}

#[test]
fn downcast_ref_to_another_type_is_no_match() {
    let a = atom(3usize);
    assert_eq!(a.atom_downcast_ref::<u64>(), None);
    assert_eq!(a.atom_downcast_ref::<i64>(), None);
    assert_eq!(a.atom_downcast_ref::<bool>(), None);
    assert_eq!(a.atom_downcast_ref::<char>(), None);
    assert_eq!(a.atom_downcast_ref::<String>(), None);
    assert_eq!(a.atom_downcast_ref::<ConsCell>(), None);
    let s = atom(String::from("3"));
    assert_eq!(s.atom_downcast_ref::<usize>(), None);
    assert_eq!(atom(3u64).atom_downcast_ref::<usize>(), None);
}

#[test]
fn downcast_on_nil_and_pair_is_not_applicable() {
    let mut heap = Heap::new();
    let mut n = nil();
    let mut p = cons(&mut heap, atom(1usize), nil());
    assert_eq!(n.atom_downcast_ref::<usize>(), None);
    assert_eq!(p.atom_downcast_ref::<usize>(), None);
    assert_eq!(p.atom_downcast_ref::<ConsCell>(), None);
    assert_eq!(n.atom_downcast_mut::<usize>(), None);
    assert_eq!(p.atom_downcast_mut::<usize>(), None);
    assert_eq!(n.atom_get_type_id(), None);
    assert_eq!(p.atom_get_type_id(), None);
    assert_eq!(n.atom_clone(), None);
    assert_eq!(p.atom_clone(), None);
    assert_eq!(n, Value::Nil);
    assert!(p.is_cons());
}

#[test]
fn downcast_mut_writes_the_payload() {
    let mut a = atom(String::from("ab"));
    a.atom_downcast_mut::<String>().unwrap().push('c');
    assert_eq!(a, atom(String::from("abc")));
    let mut n = atom(41i64);
    *n.atom_downcast_mut::<i64>().unwrap() += 1;
    assert_eq!(n.atom_downcast_ref::<i64>(), Some(&42i64));
    assert_eq!(n.atom_get_type_id(), Some(TypeTag::I64));
}

#[test]
fn downcast_mut_to_another_type_changes_nothing() {
    let mut a = atom(5usize);
    assert_eq!(a.atom_downcast_mut::<u64>(), None);
    assert_eq!(a.atom_downcast_mut::<String>(), None);
    assert_eq!(a, atom(5usize));
}

#[test]
fn clone_of_atom_is_independent() {
    let mut source = atom(String::from("one"));
    let mut copy = source.clone();
    assert_eq!(copy, source);
    source
        .atom_downcast_mut::<String>()
        .unwrap()
        .push_str("-changed");
    assert_eq!(
        copy.atom_downcast_ref::<String>(),
        Some(&String::from("one"))
    );
    *copy.atom_downcast_mut::<String>().unwrap() = String::from("two");
    assert_eq!(
        source.atom_downcast_ref::<String>(),
        Some(&String::from("one-changed"))
    );
}

#[test]
fn atom_clone_duplicates_the_handle() {
    let a = atom(9u64);
    let mut h = a.atom_clone().unwrap();
    assert_eq!(h.type_identity(), TypeTag::U64);
    assert_eq!(h.downcast_ref::<u64>(), Some(&9u64));
    *h.downcast_mut::<u64>().unwrap() = 10;
    assert_eq!(a.atom_downcast_ref::<u64>(), Some(&9u64));
    assert_eq!(h.downcast_ref::<u64>(), Some(&10u64));
}

#[test]
fn type_identity_names_the_wrapped_type() {
    assert_eq!(atom(false).atom_get_type_id(), Some(TypeTag::Bool));
    assert_eq!(atom('c').atom_get_type_id(), Some(TypeTag::Char));
    assert_eq!(atom(0i64).atom_get_type_id(), Some(TypeTag::I64));
    assert_eq!(atom(0u64).atom_get_type_id(), Some(TypeTag::U64));
    assert_eq!(atom(0usize).atom_get_type_id(), Some(TypeTag::Usize));
    assert_eq!(atom(String::new()).atom_get_type_id(), Some(TypeTag::Text));
    let mut heap = Heap::new();
    let c = heap.allocate(nil(), nil());
    assert_eq!(atom(c).atom_get_type_id(), Some(TypeTag::Cell));
    assert_ne!(atom(0u64).atom_get_type_id(), atom(0usize).atom_get_type_id());
}

#[test]
fn type_tags_are_one_per_type() {
    let tags = [
        TypeTag::of::<bool>(),
        TypeTag::of::<char>(),
        TypeTag::of::<i64>(),
        TypeTag::of::<u64>(),
        TypeTag::of::<usize>(),
        TypeTag::of::<String>(),
        TypeTag::of::<ConsCell>(),
    ];
    assert_eq!(
        tags,
        [
            TypeTag::Bool,
            TypeTag::Char,
            TypeTag::I64,
            TypeTag::U64,
            TypeTag::Usize,
            TypeTag::Text,
            TypeTag::Cell
        ]
    );
    for i in 0..tags.len() {
        for j in 0..tags.len() {
            assert_eq!(tags[i] == tags[j], i == j);
        }
    }
    assert_eq!(
        atom(3usize).atom_get_type_id(),
        Some(TypeTag::of::<usize>())
    );
    assert_eq!(<usize as Atomic>::type_identity(), TypeTag::Usize);
}

#[test]
fn handle_wraps_duplicates_and_recovers() {
    let h = ErasedHandle::wrap(String::from("payload"));
    let d = h.duplicate();
    assert_eq!(d, h);
    assert_eq!(d.clone(), h);
    assert_eq!(h.type_identity(), TypeTag::Text);
    assert_eq!(h.downcast_ref::<String>(), Some(&String::from("payload")));
    assert_eq!(h.downcast_ref::<char>(), None);
    assert_eq!(h.trace(), None);
}

#[test]
fn capabilities_of_a_concrete_type() {
    let h = 12usize.erase();
    assert_eq!(h, ErasedHandle::wrap(12usize));
    assert_eq!(12usize.clone_and_box(), h);
    assert_eq!(<usize as Atomic>::peek(&h), Some(&12usize));
    assert_eq!(<u64 as Atomic>::peek(&h), None);
    assert_eq!(Atomic::trace(&12usize), None);
    let mut t = String::from("a").clone_and_box();
    <String as Atomic>::peek_mut(&mut t).unwrap().push('b');
    assert_eq!(t, String::from("ab").erase());
    assert_eq!(<bool as Atomic>::peek_mut(&mut t), None);
}

#[test]
fn atom_may_hold_a_cell_reference() {
    let mut heap = Heap::new();
    let p = cons(&mut heap, atom(1usize), nil());
    let c = match &p {
        Value::Cons(c) => *c,
        _ => unreachable!(),
    };
    let boxed = atom(c);
    assert!(boxed.is_atom());
    assert_eq!(boxed.atom_downcast_ref::<ConsCell>(), Some(&c));
    assert_eq!(boxed.trace(), Some(c));
    assert_eq!(boxed.car(&heap), None);
    assert_eq!(Value::Cons(c).car(&heap), Some(atom(1usize)));
}
