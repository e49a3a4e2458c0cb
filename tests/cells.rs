use rune::value::{Value, ValueTypeInfo};
use rune::value::{Obj, VmError};
use rune::access::{Access, NotAccessibleMut};
use rune::shared::{Heap, Shared, StrongRef};

#[test]
fn exclusive_while_shared_is_refused() {
    let mut access = Access::new();
    let guard = access.shared().unwrap();
    assert!(matches!(access.exclusive(), Err(NotAccessibleMut { .. })));
    access.release_shared(guard);
    assert!(access.is_exclusive());
    let guard = access.exclusive().unwrap();
    assert!(access.shared().is_err());
    assert!(!access.is_shared());
    access.release_exclusive(guard);
    assert!(access.is_shared());
}

#[test]
fn borrows_balance_back_to_idle() {
    let mut access = Access::new();
    let a = access.shared().unwrap();
    let b = access.shared().unwrap();
    assert!(access.exclusive().is_err());
    access.release_shared(b);
    access.release_shared(a);
    assert!(access.is_exclusive());
}

#[test]
fn every_allocation_is_freed() {
    let mut heap: Heap<String> = Heap::new();
    let a = Shared::new(&mut heap, String::from("a"));
    let b = Shared::new(&mut heap, String::from("b"));
    let a2 = heap.clone_ref(&a);
    assert_eq!(heap.strong_count(&a), 2);
    heap.drop_ref(a);
    assert_eq!(heap.freed(), 0);
    heap.drop_ref(a2);
    assert_eq!(heap.freed(), 1);
    let taken = heap.take(b).unwrap();
    assert_eq!(taken, "b");
    assert_eq!(heap.allocations(), 2);
    assert_eq!(heap.freed(), 2);
}

#[test]
fn take_needs_sole_unborrowed_reference() {
    let mut heap: Heap<u32> = Heap::new();
    let a = Shared::new(&mut heap, 7);
    let a2 = heap.clone_ref(&a);
    assert_eq!(heap.take(a).unwrap_err(), rune::shared::NotOwned { index: 0 });
    assert_eq!(heap.strong_count(&a2), 1);
    let back = a2;
    let guard = heap.get_ref(&back).unwrap();
    assert!(heap.get_mut(&back).is_err());
    assert_eq!(*heap.value(&back), 7);
    heap.release_ref(guard);
    assert_eq!(heap.take(back).unwrap(), 7);
}

#[test]
fn strong_borrow_keeps_the_cell_alive() {
    let mut heap: Heap<u32> = Heap::new();
    let a = Shared::new(&mut heap, 1);
    let a2 = heap.clone_ref(&a);
    let strong: StrongRef = heap.strong_ref(a).unwrap();
    heap.drop_ref(a2);
    assert_eq!(heap.freed(), 0);
    let (index, guard) = StrongRef::into_raw(strong);
    assert_eq!(index, 0);
    heap.release_strong_ref(guard);
    assert_eq!(heap.freed(), 1);
}

#[test]
fn downcast_checks_borrow_then_type() {
    let mut heap: Heap<Obj> = Heap::new();
    let h = Shared::new(&mut heap, Obj::External { type_hash: 7, name: b"Client".to_vec() });
    let r = h.downcast_ref(&mut heap, 7).unwrap();
    assert!(matches!(h.downcast_mut(&mut heap, 7), Err(VmError::NotAccessibleMut { .. })));
    assert!(matches!(h.downcast_ref(&mut heap, 8), Err(VmError::UnexpectedValueType { expected: 8, actual: Some(7) })));
    heap.release_ref(r);
    let m = h.downcast_mut(&mut heap, 7).unwrap();
    assert!(matches!(h.downcast_ref(&mut heap, 7), Err(VmError::NotAccessibleRef { .. })));
    heap.release_mut(m);
    match h.downcast_take(&mut heap, 7) {
        Ok(Obj::External { type_hash, .. }) => assert_eq!(type_hash, 7),
        other => panic!("unexpected: {:?}", other),
    }
    assert_eq!(heap.freed(), 1);
}

#[test]
fn strong_downcast_and_type_info() {
    let mut heap: Heap<Obj> = Heap::new();
    let h = Shared::new(&mut heap, Obj::External { type_hash: 3, name: b"Response".to_vec() });
    let h2 = heap.clone_ref(&h);
    let v = Value::External(h2);
    assert_eq!(v.type_info(&heap).unwrap(), ValueTypeInfo::External(b"Response".to_vec()));
    assert_eq!(Value::Type(5).type_info(&heap).unwrap(), ValueTypeInfo::Type(5));
    let strong = h.downcast_strong_ref(&mut heap, 3).unwrap();
    assert_eq!(heap.freed(), 0);
    let (_, guard) = StrongRef::into_raw(strong);
    heap.release_strong_ref(guard);
    assert_eq!(heap.freed(), 0);
    match v {
        Value::External(h2) => {
            assert!(matches!(h2.downcast_strong_mut(&mut heap, 4), Err(VmError::UnexpectedValueType { .. })));
        }
        _ => unreachable!(),
    }
    assert_eq!(heap.freed(), 1);
}
