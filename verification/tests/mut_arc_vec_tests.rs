use arc_vec::{neg_idx, ArcVec, MutArcVec};

fn from_slice(items: &[i32], cap: usize) -> MutArcVec<i32> {
    let mut v = MutArcVec::with_capacity(cap);
    for x in items {
        v.push(*x);
    }
    v
}

#[test]
fn it_works() {
    let result = 2 + 2;
    assert_eq!(result, 4);
}

#[test]
fn neg_idx_counts_from_the_back() {
    assert_eq!(neg_idx(-1, 5), 4);
    assert_eq!(neg_idx(-5, 5), 0);
    assert_eq!(neg_idx(-2, 5), 3);
    assert_eq!(neg_idx(0, 5), 0);
    assert_eq!(neg_idx(4, 5), 4);
    assert_eq!(neg_idx(0, 1), 0);
    assert_eq!(neg_idx(-1, 1), 0);
}

#[test]
fn neg_idx_law_on_values() {
    for len in 1..6isize {
        for i in 0..len {
            assert_eq!(neg_idx(i - len, len as usize), neg_idx(i, len as usize));
        }
    }
}

#[test]
fn with_capacity_is_empty() {
    let v: MutArcVec<u8> = MutArcVec::with_capacity(7);
    assert_eq!(v.len(), 0);
    assert_eq!(v.cap(), 7);
    assert_eq!(v.len_cap(), [0, 7]);
    assert!(v.as_slice().is_empty());
}

#[test]
fn push_appends_and_doubles_when_full() {
    let mut v = MutArcVec::with_capacity(2);
    v.push(1).push(2);
    assert_eq!(v.len_cap(), [2, 2]);
    v.push(3);
    assert_eq!(v.as_slice(), &[1, 2, 3]);
    assert_eq!(v.len_cap(), [3, 4]);
    v.push(4);
    assert_eq!(v.len_cap(), [4, 4]);
    v.push(5);
    assert_eq!(v.len_cap(), [5, 8]);
}

#[test]
fn push_onto_zero_capacity_grows_to_one() {
    let mut v = MutArcVec::with_capacity(0);
    v.push(10u64);
    assert_eq!(v.len_cap(), [1, 1]);
    assert_eq!(v.as_slice(), &[10]);
    let mut w = from_slice(&[1, 2], 2);
    let _ = w.take();
    w.push(3);
    assert_eq!(w.len_cap(), [1, 1]);
}

#[test]
fn push_onto_full_capacity_one_doubles() {
    let mut v = MutArcVec::with_capacity(1);
    v.push(10u64);
    assert_eq!(v.len_cap(), [1, 1]);
    v.push(11);
    assert_eq!(v.len_cap(), [2, 2]);
    v.push(12);
    assert_eq!(v.len_cap(), [3, 4]);
    assert_eq!(v.as_slice(), &[10, 11, 12]);
}

#[test]
fn reserve_resizes_only_when_short() {
    let mut v = from_slice(&[1, 2], 4);
    v.reserve(2);
    assert_eq!(v.len_cap(), [2, 4]);
    v.reserve(5);
    assert_eq!(v.len_cap(), [2, 7]);
    assert_eq!(v.as_slice(), &[1, 2]);
}

#[test]
fn append_moves_elements() {
    let mut v = from_slice(&[1, 2], 2);
    let w = from_slice(&[3, 4, 5], 3);
    v.append(w);
    assert_eq!(v.as_slice(), &[1, 2, 3, 4, 5]);
    assert_eq!(v.cap(), 5);
    let mut roomy = from_slice(&[1], 10);
    roomy.append(from_slice(&[2], 1));
    assert_eq!(roomy.len_cap(), [2, 10]);
}

#[test]
fn append_reserve_leaves_excess() {
    let mut v = from_slice(&[1, 2], 2);
    v.append_reserve(from_slice(&[3], 1), 4);
    assert_eq!(v.as_slice(), &[1, 2, 3]);
    assert_eq!(v.len_cap(), [3, 7]);
    let mut big = from_slice(&[1], 20);
    big.append_reserve(from_slice(&[2], 1), 4);
    assert_eq!(big.len_cap(), [2, 20]);
}

#[test]
fn shrink_fits_capacity_to_length() {
    let mut v = from_slice(&[1, 2, 3], 10);
    v.shrink();
    assert_eq!(v.len_cap(), [3, 3]);
    assert_eq!(v.as_slice(), &[1, 2, 3]);
    v.shrink();
    assert_eq!(v.len_cap(), [3, 3]);
}

#[test]
fn shrink_to_only_shrinks_within_bounds() {
    let mut v = from_slice(&[1, 2, 3], 10);
    v.shrink_to(5);
    assert_eq!(v.len_cap(), [3, 5]);
    v.shrink_to(2);
    assert_eq!(v.len_cap(), [3, 5]);
    v.shrink_to(8);
    assert_eq!(v.len_cap(), [3, 5]);
    assert_eq!(v.as_slice(), &[1, 2, 3]);
}

#[test]
fn take_leaves_an_empty_vector() {
    let mut v = from_slice(&[4, 5], 6);
    let t = v.take();
    assert_eq!(t.as_slice(), &[4, 5]);
    assert_eq!(t.len_cap(), [2, 6]);
    assert_eq!(v.len_cap(), [0, 0]);
}

#[test]
fn truncate_keeps_a_prefix_and_the_capacity() {
    let mut v = from_slice(&[1, 2, 3, 4], 6);
    v.truncate(2);
    assert_eq!(v.as_slice(), &[1, 2]);
    assert_eq!(v.len_cap(), [2, 6]);
    v.truncate(5);
    assert_eq!(v.as_slice(), &[1, 2]);
    v.truncate(0);
    assert_eq!(v.len_cap(), [0, 6]);
}

#[test]
fn swap_remove_moves_the_last_element_in() {
    let mut v = from_slice(&[1, 2, 3, 4], 4);
    let (_, x) = v.swap_remove(1);
    assert_eq!(x, 2);
    assert_eq!(v.as_slice(), &[1, 4, 3]);
    let (_, y) = v.swap_remove(2);
    assert_eq!(y, 3);
    assert_eq!(v.as_slice(), &[1, 4]);
    assert_eq!(v.cap(), 4);
}

#[test]
fn insert_shifts_right() {
    let mut v = from_slice(&[1, 2, 3], 3);
    v.insert(1, 9);
    assert_eq!(v.as_slice(), &[1, 9, 2, 3]);
    assert_eq!(v.len_cap(), [4, 4]);
    v.insert(4, 8);
    assert_eq!(v.as_slice(), &[1, 9, 2, 3, 8]);
    assert_eq!(v.len_cap(), [5, 5]);
    v.insert(0, 7);
    assert_eq!(v.as_slice(), &[7, 1, 9, 2, 3, 8]);
}

#[test]
fn remove_shifts_left() {
    let mut v = from_slice(&[1, 2, 3, 4], 5);
    let (_, x) = v.remove(1);
    assert_eq!(x, 2);
    assert_eq!(v.as_slice(), &[1, 3, 4]);
    let (_, y) = v.remove(2);
    assert_eq!(y, 4);
    assert_eq!(v.as_slice(), &[1, 3]);
    assert_eq!(v.cap(), 5);
}

#[test]
fn remove_undoes_insert() {
    let mut v = from_slice(&[5, 6, 7], 3);
    v.insert(2, 42);
    let (_, x) = v.remove(2);
    assert_eq!(x, 42);
    assert_eq!(v.as_slice(), &[5, 6, 7]);
}

#[test]
fn retain_keeps_order() {
    let mut v = from_slice(&[1, 2, 3, 4, 5, 6], 8);
    v.retain(|x| x % 2 == 0);
    assert_eq!(v.as_slice(), &[2, 4, 6]);
    assert_eq!(v.cap(), 8);
    v.retain(|_| true);
    assert_eq!(v.as_slice(), &[2, 4, 6]);
    v.retain(|_| false);
    assert_eq!(v.len(), 0);
}

#[test]
fn retain_calls_once_per_element_in_order() {
    let mut v = from_slice(&[10, 20, 30, 40], 4);
    let mut seen = Vec::new();
    v.retain(|x| {
        seen.push(*x);
        seen.len() != 2
    });
    assert_eq!(seen, vec![10, 20, 30, 40]);
    assert_eq!(v.as_slice(), &[10, 30, 40]);
}

#[test]
fn retain_mut_keeps_changed_elements() {
    let mut v = from_slice(&[1, 2, 3, 4], 4);
    v.retain_mut(|x| {
        *x *= 10;
        *x != 20
    });
    assert_eq!(v.as_slice(), &[10, 30, 40]);
    assert_eq!(v.cap(), 4);
}

#[test]
fn mut_slice_writes_through() {
    let mut v = from_slice(&[1, 2, 3], 3);
    v.as_mut_slice()[1] = 20;
    assert_eq!(v.as_slice(), &[1, 20, 3]);
    let s: &mut [i32] = &mut v;
    s[0] = 10;
    assert_eq!(&v[..], &[10, 20, 3]);
}

#[test]
fn mut_arc_vec_indexing() {
    let v = from_slice(&[1, 2, 3, 4, 5], 5);
    assert_eq!(v[0usize], 1);
    assert_eq!(v[4usize], 5);
    assert_eq!(v[-1isize], 5);
    assert_eq!(v[-5isize], 1);
    assert_eq!(&v[1usize..3], &[2, 3]);
    assert_eq!(&v[3usize..], &[4, 5]);
    assert_eq!(&v[..2usize], &[1, 2]);
    assert_eq!(&v[1usize..=2], &[2, 3]);
    assert_eq!(&v[..=1usize], &[1, 2]);
    assert_eq!(&v[..], &[1, 2, 3, 4, 5]);
    assert_eq!(&v[-3isize..-1], &[3, 4]);
    assert_eq!(&v[-3isize..=-1], &[3, 4, 5]);
    assert_eq!(&v[..=-2isize], &[1, 2, 3, 4]);
    assert_eq!(&v[..-2isize], &[1, 2, 3]);
    assert_eq!(&v[-2isize..], &[4, 5]);
    assert_eq!(&v[1isize..3], &[2, 3]);
}

#[test]
fn clone_copies_each_element() {
    let v = from_slice(&[1, 2, 3], 5);
    let w = v.clone();
    assert_eq!(w.as_slice(), &[1, 2, 3]);
    assert_eq!(w.len_cap(), [3, 5]);
}

#[test]
fn arc_vec_len_cap_and_slice() {
    let a: ArcVec<i32> = ArcVec::with_capacity(4);
    assert_eq!(a.len(), 0);
    assert_eq!(a.cap(), 4);
    assert_eq!(a.len_cap(), [0, 4]);
    assert!(a.as_slice().is_empty());
}

#[test]
fn swap_remove_and_remove_agree_on_the_last_position() {
    let mut a = from_slice(&[1, 2, 3], 3);
    let mut b = from_slice(&[1, 2, 3], 3);
    let (_, x) = a.swap_remove(2);
    let (_, y) = b.remove(2);
    assert_eq!(x, y);
    assert_eq!(a.as_slice(), b.as_slice());
    let (_, p) = a.swap_remove(0);
    let (_, q) = b.remove(0);
    assert_eq!(p, q);
    assert_eq!(a.len(), b.len());
}

#[test]
fn reserve_leaves_room_for_the_request() {
    for cap in 0..5usize {
        for extra in 0..5usize {
            let mut v = MutArcVec::with_capacity(cap);
            for i in 0..cap.min(2) {
                v.push(i);
            }
            let [len, old_cap] = v.len_cap();
            v.reserve(extra);
            let [_, new_cap] = v.len_cap();
            assert!(new_cap >= len + extra);
            assert!(new_cap >= old_cap);
        }
    }
}

#[test]
fn retain_mut_without_changes_matches_retain() {
    let mut a = from_slice(&[5, 6, 7, 8, 9], 6);
    let mut b = from_slice(&[5, 6, 7, 8, 9], 6);
    a.retain(|x| x % 3 != 0);
    b.retain_mut(|x| *x % 3 != 0);
    assert_eq!(a.as_slice(), b.as_slice());
    assert_eq!(a.len_cap(), b.len_cap());
}

#[test]
fn len_never_exceeds_cap() {
    let mut v = from_slice(&[1, 2, 3], 3);
    for i in 0..10 {
        v.push(i);
        let [len, cap] = v.len_cap();
        assert!(len <= cap);
    }
    v.as_mut_slice()[0] = 100;
    let [len, cap] = v.len_cap();
    assert!(len <= cap);
}

#[test]
fn exhausted_inclusive_range_selects_nothing() {
    let v = from_slice(&[1, 2, 3, 4], 4);
    let mut r = 1usize..=2;
    assert_eq!(r.next(), Some(1));
    assert_eq!(r.next(), Some(2));
    assert_eq!(r.next(), None);
    assert!(v[r].is_empty());
    assert_eq!(&v[1usize..=2], &[2, 3]);
    assert!(v[3usize..=2].is_empty());
}

#[test]
fn negative_index_on_any_vector() {
    let mut v = from_slice(&[1, 2, 3], 3);
    v.push(4);
    assert_eq!(v[-1isize], 4);
    assert_eq!(v[-4isize], 1);
    assert_eq!(&v[-2isize..], &[3, 4]);
}
