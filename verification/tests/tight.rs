use tight_iter::storage::{ColumnLease, Key};
use tight_iter::tight::Tight1;

fn keys(n: u64) -> Vec<Key> {
    let mut v = Vec::new();
    let mut i: u64 = 0;
    while i < n {
        v.push(Key { value: 100 + i });
        i += 1;
    }
    v
}

fn column(n: u64) -> Vec<u64> {
    let mut v = Vec::new();
    let mut i: u64 = 0;
    while i < n {
        v.push(i);
        i += 1;
    }
    v
}

#[test]
fn forward_count_matches_len() {
    let data = column(5);
    let ks = keys(5);
    let lease = ColumnLease { data: &data, keys: &ks };
    let mut cursor = Tight1::new(lease, 0, 5);
    let mut produced: usize = 0;
    loop {
        assert_eq!(cursor.len(), 5 - produced);
        match cursor.next() {
            Some(item) => {
                assert_eq!(item, produced as u64);
                produced += 1;
            }
            None => break,
        }
    }
    assert_eq!(produced, 5);
    assert_eq!(cursor.len(), 0);
}

#[test]
fn collect_forward_is_range_in_order() {
    let data = column(6);
    let ks = keys(6);
    let lease = ColumnLease { data: &data, keys: &ks };
    let cursor = Tight1::new(lease, 2, 5);
    assert_eq!(cursor.collect_forward(), vec![2, 3, 4]);
}

#[test]
fn reverse_consumption_descends() {
    let data = column(4);
    let ks = keys(4);
    let lease = ColumnLease { data: &data, keys: &ks };
    let mut cursor = Tight1::new(lease, 0, 4);
    let mut out = Vec::new();
    while let Some(item) = cursor.next_back() {
        out.push(item);
    }
    assert_eq!(out, vec![3, 2, 1, 0]);
}

#[test]
fn interleaving_yields_each_index_once() {
    // The column holds its own indices, so a yielded item names the index
    // it came from.
    let data = column(6);
    let ks = keys(6);
    let lease = ColumnLease { data: &data, keys: &ks };
    let mut cursor = Tight1::new(lease, 0, 6);
    let mut seen = Vec::new();
    let mut from_front = true;
    loop {
        let item = if from_front { cursor.next() } else { cursor.next_back() };
        match item {
            Some(index) => {
                assert!(index < 6, "index outside the original range");
                assert!(!seen.contains(&index), "index yielded twice");
                seen.push(index);
            }
            None => break,
        }
        from_front = !from_front;
    }
    assert_eq!(seen.len(), 6);
    assert_eq!(seen, vec![0, 5, 1, 4, 2, 3]);
}

#[test]
fn split_at_three_of_seven() {
    // Range [0, 7), split at 3: left [0, 3), right [3, 7).
    let data = column(7);
    let ks = keys(7);
    let lease = ColumnLease { data: &data, keys: &ks };
    let cursor = Tight1::new(lease, 0, 7);
    let (left, right) = cursor.split_at(3);
    assert_eq!(left.len(), 3);
    assert_eq!(right.len(), 4);
    let left_items = left.collect_forward();
    let right_items = right.collect_forward();
    assert_eq!(left_items, vec![0, 1, 2]);
    assert_eq!(right_items, vec![3, 4, 5, 6]);
    // Disjoint and contiguous: concatenated they are the undivided yield.
    let mut joined = left_items;
    joined.extend(right_items);
    assert_eq!(joined, vec![0, 1, 2, 3, 4, 5, 6]);
}

#[test]
fn split_at_bounds() {
    let data = column(4);
    let ks = keys(4);
    let lease = ColumnLease { data: &data, keys: &ks };
    let cursor = Tight1::new(lease, 0, 4);
    let (left, right) = cursor.split_at(0);
    assert_eq!(left.len(), 0);
    assert_eq!(right.collect_forward(), vec![0, 1, 2, 3]);

    let lease = ColumnLease { data: &data, keys: &ks };
    let cursor = Tight1::new(lease, 0, 4);
    let (left, right) = cursor.split_at(4);
    assert_eq!(left.collect_forward(), vec![0, 1, 2, 3]);
    assert_eq!(right.len(), 0);
}

#[test]
fn split_pieces_are_independent() {
    let data = column(6);
    let ks = keys(6);
    let lease = ColumnLease { data: &data, keys: &ks };
    let cursor = Tight1::new(lease, 0, 6);
    let (mut left, mut right) = cursor.split_at(2);
    assert_eq!(right.next(), Some(2));
    assert_eq!(left.next(), Some(0));
    assert_eq!(right.next_back(), Some(5));
    assert_eq!(left.next(), Some(1));
    assert_eq!(left.next(), None);
    assert_eq!(right.collect_forward(), vec![3, 4]);
}

#[test]
fn empty_range_is_exhausted_immediately() {
    // Range [5, 5): both ends report exhaustion at once and len() is 0.
    let data = column(5);
    let ks = keys(5);
    let lease = ColumnLease { data: &data, keys: &ks };
    let mut cursor = Tight1::new(lease, 5, 5);
    assert_eq!(cursor.len(), 0);
    assert_eq!(cursor.next(), None);
    assert_eq!(cursor.next_back(), None);
    assert_eq!(cursor.len(), 0);
}

#[test]
fn last_id_tracks_forward_yield() {
    let data = column(3);
    let ks = keys(3);
    let lease = ColumnLease { data: &data, keys: &ks };
    let mut cursor = Tight1::new(lease, 0, 3);
    cursor.next();
    assert_eq!(cursor.last_id(), Key { value: 100 });
    cursor.next();
    assert_eq!(cursor.last_id(), Key { value: 101 });
    // Reverse consumption does not move the forward mark.
    cursor.next_back();
    assert_eq!(cursor.last_id(), Key { value: 101 });
}

#[test]
fn size_hint_is_exact() {
    let data = column(4);
    let ks = keys(4);
    let lease = ColumnLease { data: &data, keys: &ks };
    let mut cursor = Tight1::new(lease, 1, 4);
    assert_eq!(cursor.size_hint(), (3, Some(3)));
    cursor.next();
    assert_eq!(cursor.size_hint(), (2, Some(2)));
}

#[test]
fn first_pass_names_the_index() {
    let data = column(4);
    let ks = keys(4);
    let lease = ColumnLease { data: &data, keys: &ks };
    let mut cursor = Tight1::new(lease, 2, 4);
    assert_eq!(cursor.first_pass(), Some((2, 2)));
    let pair = cursor.first_pass().unwrap();
    assert_eq!(pair, (3, 3));
    assert_eq!(cursor.post_process(pair), Some(3));
    assert_eq!(cursor.first_pass(), None);
}

#[test]
fn into_iter_is_the_cursor_itself() {
    let data = column(3);
    let ks = keys(3);
    let lease = ColumnLease { data: &data, keys: &ks };
    let cursor = Tight1::new(lease, 0, 3);
    let iter = cursor.into_iter();
    assert_eq!(iter.collect_forward(), vec![0, 1, 2]);
}
