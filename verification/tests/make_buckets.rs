use prometheus_histogram::spans::{make_buckets, try_make_buckets, BucketSpan};
use std::collections::HashMap;

#[test]
fn test_make_buckets_empty() {
    let buckets = HashMap::new();
    let (spans, deltas) = make_buckets(&buckets);
    assert!(spans.is_empty());
    assert!(deltas.is_empty());
}

#[test]
fn test_make_buckets_single() {
    let mut buckets = HashMap::new();
    buckets.insert(5, 10);
    let (spans, deltas) = make_buckets(&buckets);

    assert_eq!(spans.len(), 1);
    assert_eq!(spans[0].offset, 5);
    assert_eq!(spans[0].length, 1);
    assert_eq!(deltas, vec![10]);
}

#[test]
fn test_make_buckets_consecutive() {
    let mut buckets = HashMap::new();
    buckets.insert(0, 1);
    buckets.insert(1, 2);
    buckets.insert(2, 3);
    let (spans, deltas) = make_buckets(&buckets);

    assert_eq!(spans.len(), 1);
    assert_eq!(spans[0].offset, 0);
    assert_eq!(spans[0].length, 3);
    // Deltas: 1, 2-1=1, 3-2=1
    assert_eq!(deltas, vec![1, 1, 1]);
}

#[test]
fn test_make_buckets_with_gap() {
    let mut buckets = HashMap::new();
    buckets.insert(0, 5);
    buckets.insert(5, 10); // Gap > 2
    let (spans, deltas) = make_buckets(&buckets);

    // Two separate spans because gap > 2
    assert_eq!(spans.len(), 2);
    assert_eq!(spans[0].offset, 0);
    assert_eq!(spans[0].length, 1);
    assert_eq!(spans[1].offset, 4); // Gap from index 1 to 5 is 4
    assert_eq!(spans[1].length, 1);
    // Deltas are cumulative: 5, then 10-5=5
    assert_eq!(deltas, vec![5, 5]);
}

#[test]
fn test_make_buckets_small_gap() {
    let mut buckets = HashMap::new();
    buckets.insert(0, 5);
    buckets.insert(2, 10); // Gap of 1 (index 1 missing)
    let (spans, deltas) = make_buckets(&buckets);

    // Single span with gap filled
    assert_eq!(spans.len(), 1);
    assert_eq!(spans[0].offset, 0);
    assert_eq!(spans[0].length, 3);
    // 5, then 0-5=-5 (gap at index 1), then 10-0=10 (index 2)
    assert_eq!(deltas, vec![5, -5, 10]);
}

#[test]
fn make_buckets_gap_of_two_is_filled() {
    let mut buckets = HashMap::new();
    buckets.insert(-3, 4);
    buckets.insert(0, 6);
    let (spans, deltas) = make_buckets(&buckets);
    assert_eq!(spans, vec![BucketSpan { offset: -3, length: 4 }]);
    assert_eq!(deltas, vec![4, -4, 0, 6]);
}

#[test]
fn make_buckets_gap_of_three_opens_span() {
    let mut buckets = HashMap::new();
    buckets.insert(-3, 4);
    buckets.insert(1, 6);
    buckets.insert(2, 1);
    let (spans, deltas) = make_buckets(&buckets);
    assert_eq!(
        spans,
        vec![BucketSpan { offset: -3, length: 1 }, BucketSpan { offset: 3, length: 2 }]
    );
    assert_eq!(deltas, vec![4, 2, -5]);
}

/// Reads spans and deltas back into (index, count) pairs.
fn decode(spans: &[BucketSpan], deltas: &[i64]) -> Vec<(i64, i64)> {
    let mut out = Vec::new();
    let mut pos: i64 = 0;
    let mut value: i64 = 0;
    let mut d = 0;
    for s in spans {
        pos += s.offset as i64;
        for _ in 0..s.length {
            value += deltas[d];
            d += 1;
            out.push((pos, value));
            pos += 1;
        }
    }
    assert_eq!(d, deltas.len());
    out
}

#[test]
fn make_buckets_round_trip() {
    let mut buckets = HashMap::new();
    for (k, v) in [(-20, 3u64), (-18, 1), (-5, 9), (-4, 2), (7, 11), (9, 5), (40, 1)] {
        buckets.insert(k, v);
    }
    let (spans, deltas) = make_buckets(&buckets);
    let decoded = decode(&spans, &deltas);
    for (k, v) in &buckets {
        assert!(decoded.contains(&(*k as i64, *v as i64)));
    }
    for (pos, value) in &decoded {
        if !buckets.contains_key(&(*pos as i32)) {
            assert_eq!(*value, 0);
        }
    }
    assert_eq!(decoded.len(), 7 + 1 + 1);
    for s in spans.iter().skip(1) {
        assert!(s.offset > 2);
    }
}

#[test]
fn try_make_buckets_refuses_overflowing_offset() {
    let mut buckets = HashMap::new();
    buckets.insert(-8, 1);
    buckets.insert(i32::MAX, 1);
    assert!(try_make_buckets(&buckets).is_none());
    let mut ok = HashMap::new();
    ok.insert(-1, 1);
    ok.insert(i32::MAX, 1);
    let (spans, deltas) = try_make_buckets(&ok).unwrap();
    assert_eq!(spans[1].offset, i32::MAX);
    assert_eq!(deltas, vec![1, 0]);
}

#[test]
fn try_make_buckets_refuses_overflowing_delta() {
    let mut buckets = HashMap::new();
    buckets.insert(0, i64::MAX as u64);
    buckets.insert(1, (i64::MAX as u64) + 2);
    assert!(try_make_buckets(&buckets).is_none());
}

#[test]
fn make_buckets_ignores_insertion_order() {
    let keys = [40, -7, 3, 2, 1000, -8, 0, 5, 6, -300];
    let mut forward = HashMap::new();
    for (n, k) in keys.iter().enumerate() {
        forward.insert(*k, n as u64 + 1);
    }
    let mut backward = HashMap::new();
    for (n, k) in keys.iter().enumerate().rev() {
        backward.insert(*k, n as u64 + 1);
    }
    assert_eq!(make_buckets(&forward), make_buckets(&backward));
    let (spans, deltas) = make_buckets(&forward);
    assert_eq!(spans[0], BucketSpan { offset: -300, length: 1 });
    assert_eq!(deltas[0], 10);
}
