use std::cell::Cell;

use typed_arena_any_vec::{Arena, FixedVec, SliceVecRaw};

#[derive(Debug, Clone)]
struct DropTracker<'a>(&'a Cell<u32>);

impl<'a> Drop for DropTracker<'a> {
    fn drop(&mut self) {
        self.0.set(self.0.get() + 1);
    }
}

// The previous node is recorded by its number: a reference handed out by the
// arena ends before the next allocation.
#[derive(Debug, Clone)]
struct Node<'b>(Option<u32>, u32, DropTracker<'b>);

#[test]
fn array_arena() {
    let drop_counter = Cell::new(0);
    {
        let mut arena = Arena::new(FixedVec::<_, 2>::new());

        let first = arena.allocate(Node(None, 1, DropTracker(&drop_counter))).unwrap().1;
        let node = arena.allocate(Node(Some(first), 2, DropTracker(&drop_counter))).unwrap();

        assert_eq!(node.1, 2);
        assert_eq!(node.0.unwrap(), 1);
        let second = node.1;
        assert_eq!(arena.len(), 2);

        let error = arena.allocate(Node(Some(second), 3, DropTracker(&drop_counter))).unwrap_err();
        let error_elem = error.element();
        assert_eq!(error_elem.1, 3);

        assert_eq!(drop_counter.get(), 0);
        drop(error_elem);
        assert_eq!(drop_counter.get(), 1);
    }
    assert_eq!(drop_counter.get(), 3);
    drop_counter.set(0);

    {
        let mut arena = Arena::new(FixedVec::<_, 25>::new());

        let n1 = arena.allocate(Node(None, 1, DropTracker(&drop_counter))).unwrap().1;
        let n2 = arena.allocate(Node(Some(n1), 2, DropTracker(&drop_counter))).unwrap().1;
        let node = arena.allocate(Node(Some(n2), 3, DropTracker(&drop_counter))).unwrap();

        assert_eq!(node.1, 3);
        assert_eq!(node.0.unwrap(), 2);
        assert_eq!(arena.len(), 3);

        let n4 = arena.allocate(Node(None, 4, DropTracker(&drop_counter))).unwrap().1;
        let node = arena.allocate(Node(Some(n4), 5, DropTracker(&drop_counter))).unwrap();

        assert_eq!(drop_counter.get(), 0);
        assert_eq!(node.1, 5);
        assert_eq!(node.0.unwrap(), 4);

        let mut iter = arena.iter_mut();
        for _ in 0..3 {
            iter.next();
        }
        assert!(iter.next().unwrap().0.is_none());
    }
    // Five nodes were allocated; each is dropped exactly once.
    assert_eq!(drop_counter.get(), 5);
}

#[test]
fn slice_arena() {
    let drop_counter = Cell::new(0);
    {
        let mut buffer1 = [
            Node(None, 10, DropTracker(&drop_counter)),
            Node(None, 10, DropTracker(&drop_counter)),
        ];
        let mut arena = Arena::new(SliceVecRaw::new(&mut buffer1));

        let first = arena.allocate(Node(None, 1, DropTracker(&drop_counter))).unwrap().1;
        let node = arena.allocate(Node(Some(first), 2, DropTracker(&drop_counter))).unwrap();

        assert_eq!(node.1, 2);
        assert_eq!(node.0.unwrap(), 1);
        let second = node.1;
        assert_eq!(arena.len(), 2);

        let error = arena.allocate(Node(Some(second), 3, DropTracker(&drop_counter))).unwrap_err();
        assert_eq!(error.1, 3);

        assert_eq!(drop_counter.get(), 2);
    }

    assert_eq!(drop_counter.get(), 5);
}

#[test]
fn ensure_into_vec_maintains_order_of_allocation() {
    let mut arena = Arena::new(Vec::new());
    for &s in &["t", "e", "s", "t"] {
        arena.allocate(String::from(s)).unwrap();
    }
    let vec = arena.into_vec();
    assert_eq!(vec, vec!["t", "e", "s", "t"]);
}

#[test]
fn test_is_send() {
    fn assert_is_send<T: Send>(_: T) {}

    // If `T` is `Send`, ...
    assert_is_send(42_u32);

    // Then `Arena<T>` is also `Send`.
    let arena: Arena<u32, FixedVec<u32, 5>> = Arena::new(FixedVec::new());
    assert_is_send(arena);
}

#[derive(Debug, PartialEq, Eq)]
struct NonCopy(usize);

#[test]
fn iter_mut_full_capacity() {
    const MAX: usize = 1000;

    let mut arena = Arena::new(FixedVec::<_, 1000>::new());
    for i in 0..MAX {
        arena.allocate(NonCopy(i)).unwrap();
    }

    let mut iter = arena.iter_mut();
    assert_eq!(iter.len(), MAX);

    for i in 0..MAX {
        assert_eq!(Some(&mut NonCopy(i)), iter.next());
    }

    assert!(iter.is_empty());
    assert_eq!(None, iter.next());
}

#[test]
fn iter_mut_not_full_capacity() {
    const MAX: usize = 1000;

    let mut arena = Arena::new(FixedVec::<_, 2000>::new());
    for i in 0..MAX {
        arena.allocate(NonCopy(i)).unwrap();
    }

    let mut iter = arena.iter_mut();
    assert_eq!(iter.len(), MAX);

    for i in 0..MAX {
        assert_eq!(Some(&mut NonCopy(i)), iter.next());
    }

    assert!(iter.is_empty());
    assert_eq!(None, iter.next());
}
