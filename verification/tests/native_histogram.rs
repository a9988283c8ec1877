use prometheus_histogram::bucket_index::{calculate_bucket_index, schema_from_floor};
use prometheus_histogram::native::{
    NativeHistogram, DEFAULT_NATIVE_HISTOGRAM_SCHEMA, DEFAULT_NATIVE_HISTOGRAM_ZERO_THRESHOLD_BITS,
};

/// Schema for a bucket factor: floor(log2(log2(factor))), clamped.
fn pick_schema(bucket_factor: f64) -> i32 {
    assert!(bucket_factor > 1.0, "bucket_factor must be greater than 1.0");
    let ln2 = 2.0_f64.ln();
    let floor = ((bucket_factor.ln() / ln2).ln() / ln2).floor() as i32;
    schema_from_floor(floor)
}

fn with_bucket_factor(bucket_factor: f64) -> NativeHistogram {
    NativeHistogram::with_schema(pick_schema(bucket_factor))
}

#[test]
fn test_pick_schema() {
    assert_eq!(pick_schema(1.1), 3);
    assert_eq!(pick_schema(1.2), 2);
    assert_eq!(pick_schema(2.0), 0);
    assert_eq!(pick_schema(4.0), -1);
    assert_eq!(pick_schema(17.0), -2);
}

#[test]
fn schema_from_floor_clamps() {
    assert_eq!(schema_from_floor(-100), 8);
    assert_eq!(schema_from_floor(-8), 8);
    assert_eq!(schema_from_floor(-7), 7);
    assert_eq!(schema_from_floor(3), -3);
    assert_eq!(schema_from_floor(4), -4);
    assert_eq!(schema_from_floor(i32::MAX), -4);
}

#[test]
fn test_native_histogram_factor_1_1() {
    let mut histogram = with_bucket_factor(1.1);
    for v in [0.0f64, 1.0, 2.0, 3.0] {
        histogram.observe(v.to_bits());
    }

    let state = histogram.get();
    assert_eq!(state.count, 4);
    assert_eq!(state.schema, 3);
    assert_eq!(state.zero_threshold_bits, DEFAULT_NATIVE_HISTOGRAM_ZERO_THRESHOLD_BITS);
    assert_eq!(f64::from_bits(state.zero_threshold_bits), 2.938735877055719e-39);
    assert_eq!(state.zero_count, 1);

    assert_eq!(state.positive_spans.len(), 3);
    assert_eq!(state.positive_spans[0].offset, 0);
    assert_eq!(state.positive_spans[0].length, 1);
    assert_eq!(state.positive_spans[1].offset, 7);
    assert_eq!(state.positive_spans[1].length, 1);
    assert_eq!(state.positive_spans[2].offset, 4);
    assert_eq!(state.positive_spans[2].length, 1);

    assert_eq!(state.positive_deltas, vec![1, 0, 0]);
}

#[test]
fn test_native_histogram_factor_1_2() {
    let mut histogram = with_bucket_factor(1.2);
    for v in [0.0f64, 1.0, 1.2, 1.4, 1.8, 2.0] {
        histogram.observe(v.to_bits());
    }

    let state = histogram.get();
    assert_eq!(state.count, 6);
    assert_eq!(state.schema, 2);
    assert_eq!(state.zero_count, 1);

    assert_eq!(state.positive_spans.len(), 1);
    assert_eq!(state.positive_spans[0].offset, 0);
    assert_eq!(state.positive_spans[0].length, 5);

    assert_eq!(state.positive_deltas, vec![1, -1, 2, -2, 2]);
}

#[test]
fn test_native_histogram_factor_4() {
    let mut histogram = with_bucket_factor(4.0);
    // Bucket -2: (0.015625, 0.0625]
    // Bucket -1: (0.0625, 0.25]
    // Bucket 0: (0.25, 1]
    // Bucket 1: (1, 4]
    // Bucket 2: (4, 16]
    // Bucket 3: (16, 64]
    for v in [0.0156251f64, 0.0625, 0.1, 0.25, 0.5, 1.0, 1.5, 2.0, 3.0, 3.5, 5.0, 6.0, 7.0, 33.33] {
        histogram.observe(v.to_bits());
    }

    let state = histogram.get();
    assert_eq!(state.count, 14);
    assert_eq!(state.schema, -1);
    assert_eq!(state.zero_count, 0);

    assert_eq!(state.positive_spans.len(), 1);
    assert_eq!(state.positive_spans[0].offset, -2);
    assert_eq!(state.positive_spans[0].length, 6);

    assert_eq!(state.positive_deltas, vec![2, 0, 0, 2, -1, -2]);
}

#[test]
fn test_native_histogram_negative_buckets() {
    let mut histogram = with_bucket_factor(1.2);
    for v in [0.0f64, -1.0, -1.2, -1.4, -1.8, -2.0] {
        histogram.observe(v.to_bits());
    }

    let state = histogram.get();
    assert_eq!(state.count, 6);
    assert_eq!(state.schema, 2);
    assert_eq!(state.zero_count, 1);

    assert_eq!(state.negative_spans.len(), 1);
    assert_eq!(state.negative_spans[0].offset, 0);
    assert_eq!(state.negative_spans[0].length, 5);

    assert_eq!(state.negative_deltas, vec![1, -1, 2, -2, 2]);
}

#[test]
fn test_native_histogram_positive_and_negative() {
    let mut histogram = with_bucket_factor(1.2);
    for v in [0.0f64, -1.0, -1.2, -1.4, -1.8, -2.0, 1.0, 1.2, 1.4, 1.8, 2.0] {
        histogram.observe(v.to_bits());
    }

    let state = histogram.get();
    assert_eq!(state.count, 11);
    assert_eq!(state.schema, 2);
    assert_eq!(state.zero_count, 1);

    assert_eq!(state.positive_spans.len(), 1);
    assert_eq!(state.negative_spans.len(), 1);

    assert_eq!(state.positive_deltas, vec![1, -1, 2, -2, 2]);
    assert_eq!(state.negative_deltas, vec![1, -1, 2, -2, 2]);
}

#[test]
fn native_histogram_defaults() {
    let h = NativeHistogram::new();
    assert_eq!(h.schema(), DEFAULT_NATIVE_HISTOGRAM_SCHEMA);
    assert_eq!(h.schema(), pick_schema(1.1));
    assert_eq!(h.count(), 0);
    assert_eq!(h.zero_threshold_bits(), DEFAULT_NATIVE_HISTOGRAM_ZERO_THRESHOLD_BITS);
    let d = NativeHistogram::default();
    assert_eq!(d.schema(), 3);
}

#[test]
fn native_histogram_nan_is_counted_only() {
    let mut h = NativeHistogram::new();
    h.observe(f64::NAN.to_bits());
    let s = h.get();
    assert_eq!(s.count, 1);
    assert_eq!(s.zero_count, 0);
    assert!(s.positive_spans.is_empty());
    assert!(s.negative_spans.is_empty());
}

#[test]
fn native_histogram_zero_threshold() {
    let mut h = NativeHistogram::with_zero_threshold(0, 0.5f64.to_bits());
    for v in [0.5f64, -0.25, 0.0, -0.0, 0.75] {
        h.observe(v.to_bits());
    }
    let s = h.get();
    assert_eq!(s.count, 5);
    assert_eq!(s.zero_count, 4);
    assert_eq!(s.positive_deltas, vec![1]);
    // A negative threshold admits nothing; +0.0 then counts as a negative value.
    let mut n = NativeHistogram::with_zero_threshold(0, (-1.0f64).to_bits());
    n.observe(0.0f64.to_bits());
    let s = n.get();
    assert_eq!(s.zero_count, 0);
    assert_eq!(s.negative_deltas, vec![1]);
    assert_eq!(s.negative_spans[0].offset, 0);
}

#[test]
fn native_histogram_infinity_bucket() {
    let mut h = NativeHistogram::with_schema(0);
    h.observe(f64::INFINITY.to_bits());
    h.observe(f64::NEG_INFINITY.to_bits());
    let s = h.get();
    assert_eq!(s.positive_spans[0].offset, i32::MAX);
    assert_eq!(s.negative_spans[0].offset, i32::MAX);
}

#[test]
fn native_histogram_unencodable_gap() {
    let mut h = NativeHistogram::new();
    h.observe(0.5f64.to_bits());
    h.observe(f64::INFINITY.to_bits());
    assert!(h.try_get().is_none());
}

#[test]
fn native_histogram_can_observe() {
    let h = NativeHistogram::new();
    assert!(h.can_observe(1.0f64.to_bits()));
    assert!(h.can_observe(f64::NAN.to_bits()));
}

#[test]
fn bucket_index_schema_merge() {
    // The index at schema s is the index at schema s + 1, halved and rounded up.
    for v in [1e-300f64, 0.001, 0.3, 0.5, 0.75, 1.0, 1.5, 3.0, 1024.0, 1e300, 5e-324] {
        for s in -30..8 {
            let fine = calculate_bucket_index(v.to_bits(), s + 1) as i64;
            let coarse = calculate_bucket_index(v.to_bits(), s) as i64;
            assert_eq!(coarse, (fine + 1).div_euclid(2), "value {} schema {}", v, s);
        }
    }
}

#[test]
fn bucket_index_values() {
    // Bucket i holds (2^((i-1)/2^s), 2^(i/2^s)].
    assert_eq!(calculate_bucket_index(1.0f64.to_bits(), 0), 0);
    assert_eq!(calculate_bucket_index(2.0f64.to_bits(), 0), 1);
    assert_eq!(calculate_bucket_index(3.0f64.to_bits(), 0), 2);
    assert_eq!(calculate_bucket_index(4.0f64.to_bits(), 0), 2);
    assert_eq!(calculate_bucket_index(0.0625f64.to_bits(), -1), -2);
    assert_eq!(calculate_bucket_index(0.0156251f64.to_bits(), -1), -2);
    assert_eq!(calculate_bucket_index(33.33f64.to_bits(), -1), 3);
    assert_eq!(calculate_bucket_index(3.0f64.to_bits(), 3), 13);
    assert_eq!(calculate_bucket_index(1.0f64.to_bits(), 8), 0);
    assert_eq!(calculate_bucket_index(f64::NAN.to_bits(), 3), 0);
    assert_eq!(calculate_bucket_index(0.0f64.to_bits(), 3), 0);
    assert_eq!(calculate_bucket_index((-0.0f64).to_bits(), 3), 0);
    assert_eq!(calculate_bucket_index(f64::INFINITY.to_bits(), 3), i32::MAX);
    assert_eq!(calculate_bucket_index(f64::NEG_INFINITY.to_bits(), 3), i32::MIN);
    assert_eq!(calculate_bucket_index(1.0f64.to_bits(), i32::MIN), 0);
    // Smallest subnormal: 2^-1074 = 0.5 * 2^-1073.
    assert_eq!(calculate_bucket_index(5e-324f64.to_bits(), 0), -1074);
    assert_eq!(calculate_bucket_index((-8.0f64).to_bits(), 0), 3);
}

#[test]
fn bucket_index_monotonic() {
    let values = [5e-324f64, 1e-310, 1e-100, 0.001, 0.25, 0.5, 0.5000001, 0.7, 1.0, 1.9, 2.0, 3.0, 1e10, f64::MAX, f64::INFINITY];
    for s in [-30, -4, -1, 0, 1, 3, 8, i32::MIN] {
        for w in values.windows(2) {
            let a = calculate_bucket_index(w[0].to_bits(), s);
            let b = calculate_bucket_index(w[1].to_bits(), s);
            assert!(a <= b, "{} {} schema {}", w[0], w[1], s);
        }
    }
}

#[test]
fn native_histogram_accounting() {
    let mut h = NativeHistogram::with_schema(1);
    let values = [f64::NAN, 0.0, 1.0, -1.0, 2.5, -2.5, 1e-40, f64::NAN, 7.0, 7.0, -0.0, f64::INFINITY];
    for v in values {
        h.observe(v.to_bits());
    }
    let s = h.get();
    let positive: i64 = running_total(&s.positive_deltas);
    let negative: i64 = running_total(&s.negative_deltas);
    // count - zero - buckets = number of NaNs
    assert_eq!(s.count as i64 - s.zero_count as i64 - positive - negative, 2);
    assert_eq!(s.count, values.len() as u64);
}

/// Sum of the bucket counts encoded by deltas.
fn running_total(deltas: &[i64]) -> i64 {
    let mut value = 0;
    let mut total = 0;
    for d in deltas {
        value += d;
        total += value;
    }
    total
}

#[test]
fn bucket_index_just_above_a_boundary() {
    // 2^(23/128) is about 1.13263851996, just below this value.
    assert_eq!(calculate_bucket_index(1.1326385289430618f64.to_bits(), 7), 24);
    assert_eq!(calculate_bucket_index(1.1326385f64.to_bits(), 7), 23);
    // The boundary of schema 1 is 0.7071067811865475, just below the
    // fraction of the double nearest to sqrt(2).
    assert_eq!(calculate_bucket_index(1.4142135623730951f64.to_bits(), 1), 2);
}

#[test]
fn bucket_bounds_by_power_of_two() {
    let values = [1e-300, 3.0e-5, 0.1, 0.5, 1.0, 1.5, 2.0, 3.0, 1024.0, 1025.0, 7.5e200];
    for schema in -4..=0 {
        let p = 1i32 << (-schema);
        for v in values {
            for x in [v, -v] {
                let r = calculate_bucket_index(f64::to_bits(x), schema);
                assert!(2f64.powi((r - 1) * p) < x.abs(), "{} {}", x, schema);
                assert!(x.abs() <= 2f64.powi(r * p), "{} {}", x, schema);
            }
        }
    }
    for schema in 1..=8 {
        let n = (1i32 << schema) as f64;
        for v in values {
            let r = calculate_bucket_index(v.to_bits(), schema) as f64;
            let lower = 2f64.powf((r - 1.0) / n);
            let upper = 2f64.powf(r / n);
            assert!(lower < v * (1.0 + 1e-15), "{} {}", v, schema);
            assert!(v <= upper * (1.0 + 1e-15), "{} {}", v, schema);
        }
    }
}

fn decoded_total(deltas: &[i64]) -> i64 {
    let mut running = 0i64;
    let mut total = 0i64;
    for d in deltas {
        running += d;
        total += running;
    }
    total
}

#[test]
fn count_is_zero_nan_and_decoded_buckets() {
    let mut histogram = NativeHistogram::with_schema(2);
    let values = [
        0.0f64, 1.0, 1.0, 1.3, 7.0, 7.5, 1000.0, -2.0, -2.5, -0.1, f64::NAN, 1e-300, 3.0e10,
    ];
    for v in values {
        histogram.observe(v.to_bits());
    }
    let state = histogram.get();
    assert_eq!(state.count, values.len() as u64);
    assert_eq!(state.zero_count, 2);
    let nans = 1;
    assert_eq!(
        state.count as i64,
        state.zero_count as i64 + nans + decoded_total(&state.positive_deltas)
            + decoded_total(&state.negative_deltas)
    );
    assert_eq!(decoded_total(&state.negative_deltas), 3);
}

fn same_state(a: &NativeHistogram, b: &NativeHistogram) {
    let (x, y) = (a.get(), b.get());
    assert_eq!(x.count, y.count);
    assert_eq!(x.zero_count, y.zero_count);
    assert_eq!(x.zero_threshold_bits, y.zero_threshold_bits);
    assert_eq!(x.schema, y.schema);
    assert_eq!(x.positive_spans, y.positive_spans);
    assert_eq!(x.positive_deltas, y.positive_deltas);
    assert_eq!(x.negative_spans, y.negative_spans);
    assert_eq!(x.negative_deltas, y.negative_deltas);
}

#[test]
fn observations_commute() {
    let values = [3.0f64, -2.5, 0.0, 17.0, 3.1, f64::NAN, -1e-5, 1e12];
    let mut forward = NativeHistogram::with_schema(3);
    let mut backward = NativeHistogram::with_schema(3);
    for v in values {
        forward.observe(v.to_bits());
    }
    for v in values.iter().rev() {
        backward.observe(v.to_bits());
    }
    same_state(&forward, &backward);
}

#[test]
fn snapshot_twice_is_equal() {
    let mut h = NativeHistogram::with_schema(-1);
    for v in [1.0f64, 2.0, 100.0, -7.0] {
        h.observe(v.to_bits());
    }
    same_state(&h, &h);
}
