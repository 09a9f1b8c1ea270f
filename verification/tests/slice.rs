use narcissus::slice::{
    array_chunks, array_chunks_mut, array_windows, as_chunks, as_chunks_mut, as_chunks_unchecked,
    as_chunks_unchecked_mut, rsplit_array_mut, rsplit_array_ref, split_array_mut, split_array_ref,
};

#[test]
fn array_windows_doc_example() {
    let slice = [0, 1, 2, 3];
    let mut iter = array_windows::<_, 2>(&slice);
    assert_eq!(iter.next().unwrap(), &[0, 1]);
    assert_eq!(iter.next().unwrap(), &[1, 2]);
    assert_eq!(iter.next().unwrap(), &[2, 3]);
    assert!(iter.next().is_none());
}

#[test]
fn array_windows_longer_than_slice() {
    let slice = [0, 1];
    let iter = array_windows::<_, 3>(&slice);
    assert_eq!(iter.size_hint(), (0, Some(0)));
    assert_eq!(iter.count(), 0);
}

#[test]
fn array_windows_both_ends() {
    let slice = [1, 2, 3, 4, 5, 6];
    let mut iter = array_windows::<_, 3>(&slice);
    assert_eq!(iter.size_hint(), (4, Some(4)));
    assert_eq!(iter.next_back().unwrap(), &[4, 5, 6]);
    assert_eq!(iter.nth(1).unwrap(), &[2, 3, 4]);
    assert_eq!(iter.size_hint(), (1, Some(1)));
    assert_eq!(iter.nth_back(0).unwrap(), &[3, 4, 5]);
    assert!(iter.next().is_none());
    let iter = array_windows::<_, 3>(&slice);
    assert_eq!(iter.last().unwrap(), &[4, 5, 6]);
    let mut iter = array_windows::<_, 2>(&slice);
    assert!(iter.nth(5).is_none());
    assert!(iter.next().is_none());
}

#[test]
fn array_chunks_with_remainder() {
    let slice = [1, 2, 3, 4, 5, 6, 7];
    let mut iter = array_chunks::<_, 3>(&slice);
    assert_eq!(iter.remainder(), &[7]);
    assert_eq!(iter.size_hint(), (2, Some(2)));
    let copy = iter.clone();
    assert_eq!(iter.next().unwrap(), &[1, 2, 3]);
    assert_eq!(iter.next().unwrap(), &[4, 5, 6]);
    assert!(iter.next().is_none());
    assert_eq!(copy.count(), 2);
}

#[test]
fn array_chunks_both_ends() {
    let slice = [0u8; 0];
    let mut iter = array_chunks::<_, 4>(&slice);
    assert!(iter.next_back().is_none());
    assert!(iter.remainder().is_empty());

    let slice = [1, 2, 3, 4, 5, 6, 7, 8, 9, 10];
    let mut iter = array_chunks::<_, 2>(&slice);
    assert!(iter.remainder().is_empty());
    assert_eq!(iter.next_back().unwrap(), &[9, 10]);
    assert_eq!(iter.nth_back(1).unwrap(), &[5, 6]);
    assert_eq!(iter.nth(0).unwrap(), &[1, 2]);
    assert_eq!(iter.clone().last().unwrap(), &[3, 4]);
    assert!(iter.nth(3).is_none());
    assert_eq!(iter.count(), 0);
}

#[test]
fn split_arrays() {
    let slice = [1, 2, 3, 4, 5];
    let (head, tail) = split_array_ref::<_, 2>(&slice);
    assert_eq!(head, &[1, 2]);
    assert_eq!(tail, &[3, 4, 5]);
    let (init, last) = rsplit_array_ref::<_, 2>(&slice);
    assert_eq!(init, &[1, 2, 3]);
    assert_eq!(last, &[4, 5]);
    let (all, rest) = split_array_ref::<_, 5>(&slice);
    assert_eq!(all, &slice);
    assert!(rest.is_empty());
}

#[test]
fn split_arrays_mut() {
    let mut v = [1, 2, 3, 4, 5];
    {
        let (head, tail) = split_array_mut::<_, 2>(&mut v);
        assert_eq!(head, &[1, 2]);
        assert_eq!(tail, &[3, 4, 5]);
        head[1] = 20;
        tail[0] = 30;
    }
    assert_eq!(v, [1, 20, 30, 4, 5]);
    {
        let (init, last) = rsplit_array_mut::<_, 2>(&mut v);
        assert_eq!(init, &[1, 20, 30]);
        assert_eq!(last, &[4, 5]);
        init[0] = 10;
        last[1] = 50;
    }
    assert_eq!(v, [10, 20, 30, 4, 50]);
    let (none, all) = rsplit_array_mut::<_, 0>(&mut v);
    assert_eq!(none, &[10, 20, 30, 4, 50]);
    assert!(all.is_empty());
}

#[test]
fn as_chunks_with_remainder() {
    let slice = [1, 2, 3, 4, 5, 6, 7];
    let (chunks, rem) = as_chunks::<_, 3>(&slice);
    assert_eq!(chunks, &[[1, 2, 3], [4, 5, 6]]);
    assert_eq!(rem, &[7]);
    let (chunks, rem) = as_chunks::<_, 8>(&slice);
    assert!(chunks.is_empty());
    assert_eq!(rem, &slice);
    let exact = as_chunks_unchecked::<_, 2>(&slice[..6]);
    assert_eq!(exact, &[[1, 2], [3, 4], [5, 6]]);
}

#[test]
fn as_chunks_mut_writes_through() {
    let mut v = [1, 2, 3, 4, 5, 6, 7];
    {
        let (chunks, rem) = as_chunks_mut::<_, 2>(&mut v);
        assert_eq!(chunks.len(), 3);
        assert_eq!(rem, &[7]);
        chunks[1][0] = 30;
        chunks[2] = [50, 60];
        rem[0] = 70;
    }
    assert_eq!(v, [1, 2, 30, 4, 50, 60, 70]);
    {
        let exact = as_chunks_unchecked_mut::<_, 7>(&mut v);
        assert_eq!(exact.len(), 1);
        exact[0][6] = 0;
    }
    assert_eq!(v, [1, 2, 30, 4, 50, 60, 0]);
}

#[test]
fn array_chunks_mut_both_ends() {
    let mut v = [1, 2, 3, 4, 5, 6, 7, 8, 9, 10, 11];
    {
        let mut iter = array_chunks_mut::<_, 2>(&mut v);
        assert_eq!(iter.size_hint(), (5, Some(5)));
        let first = iter.next().unwrap();
        assert_eq!(first, &[1, 2]);
        first[0] = 100;
        let back = iter.next_back().unwrap();
        assert_eq!(back, &[9, 10]);
        back[1] = 0;
        assert_eq!(iter.nth(1).unwrap(), &[5, 6]);
        assert_eq!(iter.nth_back(0).unwrap(), &[7, 8]);
        assert!(iter.nth_back(1).is_none());
        assert!(iter.next().is_none());
        assert_eq!(iter.count(), 0);
    }
    assert_eq!(v, [100, 2, 3, 4, 5, 6, 7, 8, 9, 0, 11]);
    {
        let iter = array_chunks_mut::<_, 4>(&mut v);
        let last = iter.last().unwrap();
        assert_eq!(last, &[5, 6, 7, 8]);
        last[3] = 80;
    }
    {
        let mut iter = array_chunks_mut::<_, 4>(&mut v);
        assert!(iter.nth(2).is_none());
        let rem = iter.into_remainder();
        assert_eq!(rem, &[9, 0, 11]);
        rem[2] = 110;
    }
    assert_eq!(v, [100, 2, 3, 4, 5, 6, 7, 80, 9, 0, 110]);
}

#[test]
fn array_chunks_remainder_survives_iteration() {
    let slice = [1, 2, 3, 4, 5, 6, 7, 8];
    let mut iter = array_chunks::<_, 3>(&slice);
    assert_eq!(iter.remainder(), &[7, 8]);
    assert_eq!(iter.next_back().unwrap(), &[4, 5, 6]);
    assert_eq!(iter.remainder(), &[7, 8]);
    assert!(iter.nth(3).is_none());
    assert_eq!(iter.remainder(), &[7, 8]);
    assert!(std::ptr::eq(iter.remainder(), &slice[6..]));
}

#[test]
fn array_windows_copies_are_independent() {
    let slice = [1, 2, 3, 4];
    let mut iter = array_windows::<_, 2>(&slice);
    assert_eq!(iter.next().unwrap(), &[1, 2]);
    let copy = iter;
    let mut cloned = iter.clone();
    assert_eq!(iter.next().unwrap(), &[2, 3]);
    assert_eq!(cloned.next().unwrap(), &[2, 3]);
    assert_eq!(copy.count(), 2);
    assert_eq!(iter.count(), 1);
}
