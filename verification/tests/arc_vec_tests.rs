use arc_vec::{ArcVec, MutArcVec};

fn shared(items: &[i32], cap: usize) -> ArcVec<i32> {
    let mut a = ArcVec::with_capacity(cap);
    let m = a.try_mut().expect("a fresh vector has one owner");
    for x in items {
        m.push(*x);
    }
    a
}

#[test]
fn fresh_vector_is_unique() {
    let a: ArcVec<i32> = ArcVec::with_capacity(2);
    assert!(a.is_unique());
    let b = a.clone();
    assert!(!a.is_unique());
    assert!(!b.is_unique());
    drop(b);
    assert!(a.is_unique());
}

#[test]
fn try_mut_needs_a_single_owner() {
    let mut a = shared(&[1, 2], 4);
    assert_eq!(a.as_slice(), &[1, 2]);
    let b = a.clone();
    assert!(a.try_mut().is_none());
    assert_eq!(a.as_slice(), &[1, 2]);
    drop(b);
    a.try_mut().unwrap().push(3);
    assert_eq!(&a[..], &[1, 2, 3]);
}

#[test]
fn mutate_copies_a_shared_buffer() {
    let mut a = shared(&[1, 2, 3], 5);
    let b = a.clone();
    a.mutate().push(4);
    assert_eq!(a.as_slice(), &[1, 2, 3, 4]);
    assert_eq!(b.as_slice(), &[1, 2, 3]);
    assert_eq!(b.len_cap(), [3, 5]);
    assert!(a.is_unique());
    assert!(b.is_unique());
}

#[test]
fn mutate_keeps_the_capacity_of_the_copy() {
    let mut a = shared(&[1, 2], 6);
    let _b = a.clone();
    let m = a.mutate();
    assert_eq!(m.len_cap(), [2, 6]);
    assert_eq!(m.as_slice(), &[1, 2]);
}

#[test]
fn mutate_in_place_when_unique() {
    let mut a = shared(&[1], 1);
    a.mutate().push(2);
    assert_eq!(a.as_slice(), &[1, 2]);
    assert_eq!(a.cap(), 2);
}

#[test]
fn own_clones_when_shared() {
    let a = shared(&[7, 8], 3);
    let b = a.clone();
    let mut m: MutArcVec<i32> = a.own();
    m.push(9);
    assert_eq!(m.as_slice(), &[7, 8, 9]);
    assert_eq!(b.as_slice(), &[7, 8]);
    let n = b.own();
    assert_eq!(n.len_cap(), [2, 3]);
}

#[test]
fn try_own_recovers_the_handle() {
    let a = shared(&[1, 2], 2);
    let b = a.clone();
    let back = match a.try_own() {
        Ok(_) => panic!("the buffer is shared"),
        Err(a) => a,
    };
    assert_eq!(back.as_slice(), &[1, 2]);
    drop(b);
    let m = back.try_own().ok().expect("now unique");
    assert_eq!(m.as_slice(), &[1, 2]);
    assert_eq!(m.len_cap(), [2, 2]);
}

#[test]
fn arc_vec_indexing() {
    let a = shared(&[1, 2, 3, 4, 5], 5);
    assert_eq!(a[0usize], 1);
    assert_eq!(a[2usize], 3);
    assert_eq!(a[-1isize], 5);
    assert_eq!(a[-5isize], 1);
    assert_eq!(&a[1usize..3], &[2, 3]);
    assert_eq!(&a[3usize..], &[4, 5]);
    assert_eq!(&a[..2usize], &[1, 2]);
    assert_eq!(&a[1usize..=2], &[2, 3]);
    assert_eq!(&a[..=1usize], &[1, 2]);
    assert_eq!(&a[..], &[1, 2, 3, 4, 5]);
    assert_eq!(&a[-3isize..-1], &[3, 4]);
    assert_eq!(&a[-3isize..=-1], &[3, 4, 5]);
    assert_eq!(&a[..=-2isize], &[1, 2, 3, 4]);
    assert_eq!(&a[..-2isize], &[1, 2, 3]);
    assert_eq!(&a[-2isize..], &[4, 5]);
    assert_eq!(a.len(), 5);
}

#[test]
fn deref_reads_the_elements() {
    let a = shared(&[3, 1, 2], 3);
    let s: &[i32] = &a;
    assert_eq!(s, &[3, 1, 2]);
    assert_eq!(a.iter().sum::<i32>(), 6);
}

#[test]
fn arc_vec_exhausted_inclusive_range_selects_nothing() {
    let a = shared(&[1, 2, 3], 3);
    let mut r = 0usize..=0;
    assert_eq!(r.next(), Some(0));
    assert!(a[r].is_empty());
    assert_eq!(&a[0usize..=0], &[1]);
}
