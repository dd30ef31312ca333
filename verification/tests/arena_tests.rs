use generational_array::ErrorKind;
use generational_array::GenerationalArray;
use generational_array::GenerationalArrayResult;
use generational_array::GenerationalArrayResultMut;

#[test]
fn new_arena_is_empty() {
    let arena = GenerationalArray::<u32>::new();
    assert!(arena.is_empty());
    assert_eq!(arena.size(), 0);
    assert_eq!(arena.used_size(), 0);
}

#[test]
fn get_on_empty_arena_is_out_of_bounds() {
    let mut other = GenerationalArray::<u32>::new();
    let handle = other.insert(7);
    let arena = GenerationalArray::<u32>::new();
    assert!(matches!(arena.get(&handle), GenerationalArrayResult::OutOfBounds));
}

#[test]
fn round_trip_after_insert() {
    let mut arena = GenerationalArray::<String>::new();
    let ha = arena.insert(String::from("alpha"));
    let hb = arena.insert(String::from("beta"));
    match arena.get(&ha) {
        GenerationalArrayResult::Found(v) => assert_eq!(v, "alpha"),
        _ => panic!("first value not found"),
    }
    match arena.get(&hb) {
        GenerationalArrayResult::Found(v) => assert_eq!(v, "beta"),
        _ => panic!("second value not found"),
    }
}

#[test]
fn removed_handle_is_outdated() {
    let mut arena = GenerationalArray::<u32>::new();
    let handle = arena.insert(1);
    let copy = handle;
    assert!(arena.remove(handle).is_ok());
    assert!(matches!(arena.get(&handle), GenerationalArrayResult::OutDated));
    assert!(matches!(arena.get(&copy), GenerationalArrayResult::OutDated));
    // Still outdated after the slot is reused for another value.
    let other = arena.insert(2);
    assert!(matches!(arena.get(&handle), GenerationalArrayResult::OutDated));
    assert!(matches!(arena.get_mut(&copy), GenerationalArrayResultMut::OutDated));
    match arena.get(&other) {
        GenerationalArrayResult::Found(v) => assert_eq!(*v, 2),
        _ => panic!("reused slot not found"),
    }
}

#[test]
fn double_remove_is_outdated_generation() {
    let mut arena = GenerationalArray::<u32>::new();
    let handle = arena.insert(5);
    assert_eq!(arena.remove(handle), Ok(()));
    assert_eq!(arena.remove(handle), Err(ErrorKind::OutdatedGeneration));
}

#[test]
fn reuse_bumps_generation() {
    let mut arena = GenerationalArray::<u32>::new();
    let h1 = arena.insert(10);
    let p = h1.index();
    assert!(arena.remove(h1).is_ok());
    let h2 = arena.insert(20);
    assert_eq!(h2.index(), p);
    assert!(h2.generation() > h1.generation());
    assert!(matches!(arena.get(&h1), GenerationalArrayResult::OutDated));
    match arena.get(&h2) {
        GenerationalArrayResult::Found(v) => assert_eq!(*v, 20),
        _ => panic!("reissued handle not found"),
    }
}

#[test]
fn out_of_bounds_beats_generation() {
    // A handle from a larger arena, with a bumped generation, against a
    // smaller arena: the position check must come first, whatever the
    // generation holds.
    let mut large = GenerationalArray::<u32>::new();
    let _ = large.insert(1);
    let far = large.insert(2);
    assert!(large.remove(far).is_ok());
    let far2 = large.insert(3);
    assert_eq!(far2.index(), 1);
    assert_eq!(far2.generation(), 1);

    let mut small = GenerationalArray::<u32>::new();
    let _ = small.insert(9);
    assert!(matches!(small.get(&far2), GenerationalArrayResult::OutOfBounds));
    assert!(matches!(small.get_mut(&far2), GenerationalArrayResultMut::OutOfBounds));
    assert_eq!(small.remove(far2), Err(ErrorKind::OutOfBounds));
    // The refused removal changed nothing.
    assert_eq!(small.size(), 1);
    assert_eq!(small.used_size(), 1);
}

#[test]
fn capacity_is_monotonic() {
    let mut arena = GenerationalArray::<u32>::new();
    let h0 = arena.insert(0);
    let h1 = arena.insert(1);
    assert_eq!(arena.size(), 2);
    // Removal never shrinks the arena.
    assert!(arena.remove(h0).is_ok());
    assert_eq!(arena.size(), 2);
    // An insertion that can reuse a freed slot does not grow it.
    let _ = arena.insert(2);
    assert_eq!(arena.size(), 2);
    // One that cannot grows it by exactly one slot.
    let _ = arena.insert(3);
    assert_eq!(arena.size(), 3);
    assert!(arena.remove(h1).is_ok());
    assert_eq!(arena.size(), 3);
}

#[test]
fn live_count_accounting() {
    let mut arena = GenerationalArray::<u32>::new();
    assert_eq!(arena.used_size(), 0);
    assert!(arena.is_empty());
    let h0 = arena.insert(0);
    assert_eq!(arena.used_size(), 1);
    assert!(!arena.is_empty());
    let h1 = arena.insert(1);
    assert_eq!(arena.used_size(), 2);
    assert!(arena.remove(h0).is_ok());
    assert_eq!(arena.used_size(), 1);
    assert!(!arena.is_empty());
    assert!(arena.remove(h1).is_ok());
    assert_eq!(arena.used_size(), 0);
    assert!(arena.is_empty());
    // A refused removal leaves the count alone.
    assert!(arena.remove(h1).is_err());
    assert_eq!(arena.used_size(), 0);
}

#[test]
fn freed_slots_are_reused_oldest_first() {
    let mut arena = GenerationalArray::<u32>::new();
    let h0 = arena.insert(0);
    let h1 = arena.insert(1);
    let h2 = arena.insert(2);
    assert!(arena.remove(h1).is_ok());
    assert!(arena.remove(h0).is_ok());
    assert!(arena.remove(h2).is_ok());
    // Freed in the order 1, 0, 2: reused in that same order.
    assert_eq!(arena.insert(10).index(), 1);
    assert_eq!(arena.insert(11).index(), 0);
    assert_eq!(arena.insert(12).index(), 2);
    assert_eq!(arena.size(), 3);
}

#[test]
fn get_mut_updates_in_place() {
    let mut arena = GenerationalArray::<u32>::new();
    let handle = arena.insert(41);
    match arena.get_mut(&handle) {
        GenerationalArrayResultMut::Found(v) => *v = 42,
        _ => panic!("live handle not found"),
    }
    match arena.get(&handle) {
        GenerationalArrayResult::Found(v) => assert_eq!(*v, 42),
        _ => panic!("updated value not found"),
    }
    // The write neither freed the slot nor touched its generation.
    assert_eq!(arena.used_size(), 1);
    assert_eq!(arena.size(), 1);
}

#[test]
fn concrete_scenario() {
    let mut arena = GenerationalArray::<u32>::new();
    let h0 = arena.insert(10);
    assert_eq!((h0.index(), h0.generation()), (0, 0));
    let h1 = arena.insert(20);
    assert_eq!((h1.index(), h1.generation()), (1, 0));
    assert_eq!(arena.remove(h0), Ok(()));
    assert!(matches!(arena.get(&h0), GenerationalArrayResult::OutDated));
    let h2 = arena.insert(30);
    assert_eq!((h2.index(), h2.generation()), (0, 1));
    match arena.get(&h2) {
        GenerationalArrayResult::Found(v) => assert_eq!(*v, 30),
        _ => panic!("reissued handle not found"),
    }
    match arena.get(&h1) {
        GenerationalArrayResult::Found(v) => assert_eq!(*v, 20),
        _ => panic!("untouched handle not found"),
    }
    assert_eq!(arena.size(), 2);
    assert_eq!(arena.used_size(), 2);
}

#[test]
fn handle_renders_as_text() {
    let mut arena = GenerationalArray::<u32>::new();
    let mut handles = Vec::new();
    for i in 0..13 {
        handles.push(arena.insert(i));
    }
    assert_eq!(handles[0].to_text(), "(index: 0, generation: 0)");
    assert_eq!(handles[12].to_text(), "(index: 12, generation: 0)");
    assert!(arena.remove(handles[3]).is_ok());
    let reissued = arena.insert(99);
    assert_eq!(reissued.to_text(), "(index: 3, generation: 1)");
}

#[test]
fn handles_are_plain_data() {
    let mut arena = GenerationalArray::<u32>::new();
    let handle = arena.insert(8);
    let copy = handle;
    assert_eq!(handle, copy);
    let other = arena.insert(9);
    assert_ne!(handle, other);
}
