use tidec::idx::Idx;
use tidec::index_vec::IdxVec;
use tidec::syntax::Local;

#[test]
fn test_new_and_default() {
    let vec: IdxVec<Local, u32> = IdxVec::new();
    assert!(vec.is_empty());
    let default_vec: IdxVec<Local, u32> = IdxVec::default();
    assert!(default_vec.is_empty());
}

#[test]
fn test_from_raw() {
    let raw_vec = vec![10, 20, 30];
    let idx_vec = IdxVec::<Local, _>::from_raw(raw_vec);
    assert_eq!(idx_vec.len(), 3);
    assert_eq!(*idx_vec.index(Local::new(0)), 10);
}

#[test]
fn test_with_capacity() {
    let vec: IdxVec<Local, u32> = IdxVec::with_capacity(10);
    assert!(vec.is_empty());
    assert!(vec.raw.capacity() >= 10);
}

#[test]
fn test_push_and_pop() {
    let mut vec: IdxVec<Local, String> = IdxVec::new();
    let idx1 = vec.push("hello".to_string());
    assert_eq!(idx1, Local::new(0));
    assert_eq!(vec.len(), 1);
    let idx2 = vec.push("world".to_string());
    assert_eq!(idx2, Local::new(1));
    assert_eq!(vec.len(), 2);

    assert_eq!(vec.pop(), Some("world".to_string()));
    assert_eq!(vec.len(), 1);
    assert_eq!(vec.pop(), Some("hello".to_string()));
    assert_eq!(vec.len(), 0);
    assert_eq!(vec.pop(), None);
}

#[test]
fn test_from_elem() {
    let mut universe: IdxVec<Local, ()> = IdxVec::new();
    universe.push(());
    universe.push(());
    universe.push(());
    let vec = IdxVec::from_elem(42, universe.as_slice());
    assert_eq!(vec.len(), 3);
    assert_eq!(*vec.index(Local::new(0)), 42);
    assert_eq!(*vec.index(Local::new(1)), 42);
    assert_eq!(*vec.index(Local::new(2)), 42);
}

#[test]
fn test_from_elem_n() {
    let vec: IdxVec<Local, i32> = IdxVec::from_elem_n(-1, 5);
    assert_eq!(vec.len(), 5);
    for i in 0..5 {
        assert_eq!(*vec.index(Local::new(i)), -1);
    }
}

#[test]
fn test_from_fn_n() {
    let vec: IdxVec<Local, usize> = IdxVec::from_fn_n(|i: Local| i.idx() * 2, 5);
    assert_eq!(vec.len(), 5);
    for i in 0..5 {
        assert_eq!(*vec.index(Local::new(i)), i * 2);
    }
}

#[test]
fn test_as_slice() {
    let mut vec: IdxVec<Local, u32> = IdxVec::new();
    vec.push(1);
    vec.push(2);
    let slice = vec.as_slice();
    assert_eq!(slice.len(), 2);
    assert_eq!(*slice.index(Local::new(1)), 2);
}

#[test]
fn test_as_mut_slice() {
    let mut vec: IdxVec<Local, u32> = IdxVec::new();
    vec.push(1);
    vec.push(2);
    vec.set(Local::new(0), 100);
    assert_eq!(*vec.index(Local::new(0)), 100);
}

#[test]
fn test_into_iter_enumerated() {
    let mut vec: IdxVec<Local, u32> = IdxVec::new();
    vec.push(10);
    vec.push(20);
    vec.push(30);

    let mut iter = vec.into_iter_enumerated().into_iter();
    assert_eq!(iter.next(), Some((Local::new(0), 10)));
    assert_eq!(iter.next_back(), Some((Local::new(2), 30)));
    assert_eq!(iter.next(), Some((Local::new(1), 20)));
    assert_eq!(iter.next(), None);
}

#[test]
fn test_drain() {
    let mut vec: IdxVec<Local, i32> = IdxVec::from_raw(vec![1, 2, 3, 4, 5]);
    let drained: Vec<_> = vec.drain(1, 3);
    assert_eq!(drained, vec![2, 3]);
    assert_eq!(vec.raw, vec![1, 4, 5]);
}

#[test]
fn test_drain_enumerated() {
    let mut vec: IdxVec<Local, char> = IdxVec::from_raw(vec!['a', 'b', 'c', 'd', 'e']);
    let drained: Vec<_> = vec.drain_enumerated(1, 4);
    assert_eq!(
        drained,
        vec![
            (Local::new(1), 'b'),
            (Local::new(2), 'c'),
            (Local::new(3), 'd')
        ]
    );
    assert_eq!(vec.raw, vec!['a', 'e']);
}

#[test]
fn test_truncate() {
    let mut vec: IdxVec<Local, i32> = IdxVec::from_raw(vec![1, 2, 3, 4, 5]);
    vec.truncate(3);
    assert_eq!(vec.raw, vec![1, 2, 3]);
    vec.truncate(5);
    assert_eq!(vec.raw, vec![1, 2, 3]);
}

#[test]
fn test_ensure_contains_elem() {
    let mut vec: IdxVec<Local, i32> = IdxVec::from_elem_n(0, 2);
    vec.ensure_contains_elem(Local::new(3), -1);
    vec.set(Local::new(3), 42);
    assert_eq!(vec.len(), 4);
    assert_eq!(*vec.index(Local::new(0)), 0);
    assert_eq!(*vec.index(Local::new(1)), 0);
    assert_eq!(*vec.index(Local::new(2)), -1);
    assert_eq!(*vec.index(Local::new(3)), 42);
}

#[test]
fn test_resize() {
    let mut vec: IdxVec<Local, i32> = IdxVec::from_raw(vec![1, 2]);
    vec.resize(4, 99);
    assert_eq!(vec.raw, vec![1, 2, 99, 99]);
    vec.resize(1, 0);
    assert_eq!(vec.raw, vec![1]);
}

#[test]
fn test_resize_to_elem() {
    let mut vec: IdxVec<Local, i32> = IdxVec::from_raw(vec![1]);
    vec.resize_to_elem(Local::new(3), 5);
    assert_eq!(vec.len(), 4);
    assert_eq!(vec.raw, vec![1, 5, 5, 5]);
}

#[test]
fn test_append() {
    let mut vec1: IdxVec<Local, i32> = IdxVec::from_raw(vec![1, 2]);
    let mut vec2: IdxVec<Local, i32> = IdxVec::from_raw(vec![3, 4]);
    vec1.append(&mut vec2);
    assert_eq!(vec1.raw, vec![1, 2, 3, 4]);
    assert!(vec2.is_empty());
}

#[test]
fn test_from_iterator() {
    let raw: Vec<i32> = (0..3).map(|i| i * 10).collect();
    let vec: IdxVec<Local, i32> = IdxVec::from_raw(raw);
    assert_eq!(vec.len(), 3);
    assert_eq!(*vec.index(Local::new(1)), 10);
}

#[test]
fn test_into_iterator() {
    let vec: IdxVec<Local, i32> = IdxVec::from_raw(vec![10, 20, 30]);
    let mut count = 10;
    for item in vec.raw {
        assert_eq!(item, count);
        count += 10;
    }
}

#[test]
fn test_swap_and_get() {
    let mut vec: IdxVec<Local, i32> = IdxVec::from_raw(vec![1, 2, 3]);
    vec.swap(Local::new(0), Local::new(2));
    assert_eq!(vec.raw, vec![3, 2, 1]);
    assert_eq!(vec.get(Local::new(1)), Some(&2));
    assert_eq!(vec.get(Local::new(3)), None);
    assert_eq!(vec.last_index(), Some(Local::new(2)));
    assert_eq!(vec.next_index(), Local::new(3));
}

#[test]
fn test_index_increments() {
    let mut l = Local::new(3);
    assert_eq!(l.idx(), 3);
    l.incr();
    assert_eq!(l, Local::new(4));
    l.incr_by(5);
    assert_eq!(l, Local::new(9));
    assert_eq!(l.next(), Local::new(10));
}
