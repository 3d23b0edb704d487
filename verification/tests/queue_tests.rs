use audiocast::queue::CircularQueue;

#[test]
fn zero_capacity() {
    let mut q = CircularQueue::<i32>::with_capacity(0);
    assert_eq!(q.len(), 0);
    assert_eq!(q.capacity(), 0);
    assert!(q.is_empty());

    q.push(3);
    q.push(4);
    q.push(5);

    assert_eq!(q.len(), 0);
    assert_eq!(q.capacity(), 0);
    assert!(q.is_empty());

    assert_eq!(q.iter().len(), 0);
    assert_eq!(q.asc_iter().len(), 0);

    q.clear();
}

#[test]
fn empty_queue() {
    let q = CircularQueue::<i32>::with_capacity(5);

    assert!(q.is_empty());
    assert_eq!(q.iter().first(), None);
}

#[test]
fn partially_full_queue() {
    let mut q = CircularQueue::with_capacity(5);
    q.push(1);
    q.push(2);
    q.push(3);

    assert!(!q.is_empty());
    assert_eq!(q.len(), 3);

    let res: Vec<_> = q.iter();
    assert_eq!(res, [3, 2, 1]);
}

#[test]
fn full_queue() {
    let mut q = CircularQueue::with_capacity(5);
    q.push(1);
    q.push(2);
    q.push(3);
    q.push(4);
    q.push(5);

    assert_eq!(q.len(), 5);

    let res: Vec<_> = q.iter();
    assert_eq!(res, [5, 4, 3, 2, 1]);
}

#[test]
fn over_full_queue() {
    let mut q = CircularQueue::with_capacity(5);
    q.push(1);
    q.push(2);
    q.push(3);
    q.push(4);
    q.push(5);
    q.push(6);
    q.push(7);

    assert_eq!(q.len(), 5);

    let res: Vec<_> = q.iter();
    assert_eq!(res, [7, 6, 5, 4, 3]);
}

#[test]
fn clear() {
    let mut q = CircularQueue::with_capacity(5);
    q.push(1);
    q.push(2);
    q.push(3);
    q.push(4);
    q.push(5);
    q.push(6);
    q.push(7);

    q.clear();

    assert_eq!(q.len(), 0);
    assert_eq!(q.iter().first(), None);

    q.push(1);
    q.push(2);
    q.push(3);

    assert_eq!(q.len(), 3);

    let res: Vec<_> = q.iter();
    assert_eq!(res, [3, 2, 1]);
}

#[test]
fn mutable_iterator() {
    let mut q = CircularQueue::with_capacity(5);
    q.push(1);
    q.push(2);
    q.push(3);
    q.push(4);
    q.push(5);
    q.push(6);
    q.push(7);

    for i in 0..q.len() {
        let x = q.iter_mut(i);
        *x *= 2;
    }

    let res: Vec<_> = q.iter();
    assert_eq!(res, [14, 12, 10, 8, 6]);
}

#[test]
fn zero_sized() {
    let mut q = CircularQueue::with_capacity(3);
    assert_eq!(q.capacity(), 3);

    q.push(());
    q.push(());
    q.push(());
    q.push(());

    assert_eq!(q.len(), 3);

    let iter = q.iter();
    assert_eq!(iter.get(0), Some(&()));
    assert_eq!(iter.get(1), Some(&()));
    assert_eq!(iter.get(2), Some(&()));
    assert_eq!(iter.get(3), None);
}

#[test]
fn empty_queue_eq() {
    let q1 = CircularQueue::<i32>::with_capacity(5);
    let q2 = CircularQueue::<i32>::with_capacity(5);
    assert_eq!(q1, q2);

    let q3 = CircularQueue::<i32>::with_capacity(6);
    assert_eq!(q1, q3); // Capacity doesn't matter as long as the same elements are yielded.
}

#[test]
fn partially_full_queue_eq() {
    let mut q1 = CircularQueue::with_capacity(5);
    q1.push(1);
    q1.push(2);
    q1.push(3);

    let mut q2 = CircularQueue::with_capacity(5);
    q2.push(1);
    q2.push(2);
    assert_ne!(q1, q2);

    q2.push(3);
    assert_eq!(q1, q2);

    q2.push(4);
    assert_ne!(q1, q2);
}

#[test]
fn full_queue_eq() {
    let mut q1 = CircularQueue::with_capacity(5);
    q1.push(1);
    q1.push(2);
    q1.push(3);
    q1.push(4);
    q1.push(5);

    let mut q2 = CircularQueue::with_capacity(5);
    q2.push(1);
    q2.push(2);
    q2.push(3);
    q2.push(4);
    q2.push(5);

    assert_eq!(q1, q2);
}

#[test]
fn over_full_queue_eq() {
    let mut q1 = CircularQueue::with_capacity(5);
    q1.push(1);
    q1.push(2);
    q1.push(3);
    q1.push(4);
    q1.push(5);
    q1.push(6);
    q1.push(7);

    let mut q2 = CircularQueue::with_capacity(5);
    q2.push(1);
    q2.push(2);
    q2.push(3);
    q2.push(4);
    q2.push(5);
    q2.push(6);
    assert_ne!(q1, q2);

    q2.push(7);
    assert_eq!(q1, q2);

    q2.push(8);
    assert_ne!(q1, q2);

    q2.push(3);
    q2.push(4);
    q2.push(5);
    q2.push(6);
    q2.push(7);
    assert_eq!(q1, q2);
}

#[test]
fn clear_eq() {
    let mut q1 = CircularQueue::with_capacity(5);
    q1.push(1);
    q1.push(2);
    q1.push(3);
    q1.push(4);
    q1.push(5);
    q1.push(6);
    q1.push(7);
    q1.clear();

    let mut q2 = CircularQueue::with_capacity(5);
    assert_eq!(q1, q2);

    q2.push(1);
    q2.clear();
    assert_eq!(q1, q2);
}

#[test]
fn zero_sized_eq() {
    let mut q1 = CircularQueue::with_capacity(3);
    q1.push(());
    q1.push(());
    q1.push(());
    q1.push(());

    let mut q2 = CircularQueue::with_capacity(3);
    q2.push(());
    q2.push(());
    assert_ne!(q1, q2);

    q2.push(());
    assert_eq!(q1, q2);

    q2.push(());
    assert_eq!(q1, q2);

    q2.push(());
    assert_eq!(q1, q2);
}

#[test]
fn into_vec() {
    let mut q = CircularQueue::with_capacity(4);
    q.push(1);
    q.push(2);
    q.push(3);

    let v = q.clone().into_vec();
    assert_eq!(v, vec![3, 2, 1]);

    q.push(4);
    q.push(5);
    let v = q.clone().into_vec();
    assert_eq!(v, vec![5, 4, 3, 2]);

    q.push(6);
    let v = q.into_vec();
    assert_eq!(v, vec![6, 5, 4, 3]);
}

#[test]
fn vec_from() {
    let mut q = CircularQueue::with_capacity(3);
    q.push(1);
    q.push(2);
    q.push(3);
    q.push(4);

    let v = Vec::from(q);
    assert_eq!(v, vec![4, 3, 2]);
}

#[test]
fn push_bulk_interleaved() {
    let mut q = CircularQueue::with_capacity(5);
    q.push(1);
    q.push(2);
    assert_eq!(q.len(), 2);

    q.push_bulk(vec![3, 4, 5, 6]);

    assert_eq!(q.len(), 5);
    assert!(q.is_full());
    assert_eq!(q.iter(), [6, 5, 4, 3, 2]);
}

#[test]
fn push_bulk_longer_than_capacity() {
    let mut q = CircularQueue::with_capacity(3);
    q.push_bulk(vec![1, 2, 3, 4, 5]);
    assert_eq!(q.len(), 3);
    assert_eq!(q.iter(), [5, 4, 3]);
}

#[test]
fn push_bulk_empty_and_zero_capacity() {
    let mut q = CircularQueue::with_capacity(3);
    q.push(9);
    q.push_bulk(vec![]);
    assert_eq!(q.iter(), [9]);

    let mut z = CircularQueue::<i32>::with_capacity(0);
    z.push_bulk(vec![1, 2, 3]);
    assert!(z.is_empty());
}

#[test]
fn push_returns_evicted() {
    let mut q = CircularQueue::with_capacity(3);
    assert_eq!(q.push(1), None);
    assert_eq!(q.push(2), None);
    assert_eq!(q.push(3), None);
    assert_eq!(q.push(4), Some(1));
    assert_eq!(q.push(5), Some(2));
    assert_eq!(q.iter(), [5, 4, 3]);
}

#[test]
fn ascending_iterators() {
    let mut q = CircularQueue::with_capacity(3);
    q.push(1);
    q.push(2);
    q.push(3);
    q.push(4);

    assert_eq!(q.asc_iter(), [2, 3, 4]);

    for i in 0..q.len() {
        let x = q.asc_iter_mut(i);
        *x += 10;
    }
    assert_eq!(q.asc_iter(), [12, 13, 14]);
}
