use prometheus_histogram::classic::{Histogram, MAX_FINITE_BITS};

fn bits(v: &[f64]) -> Vec<u64> {
    v.iter().map(|x| x.to_bits()).collect()
}

#[test]
fn histogram() {
    let bounds: Vec<f64> = (0..10).map(|i| 2f64.powi(i)).collect();
    let mut histogram = Histogram::new(bits(&bounds));
    histogram.observe(1.0f64.to_bits());
    assert_eq!(histogram.count(), 1);
    assert_eq!(histogram.buckets()[0].1, 1);
}

#[test]
fn histogram_new_appends_max_bucket() {
    let h = Histogram::new(bits(&[10.0, 100.0, 1_000.0]));
    let b = h.buckets();
    assert_eq!(b.len(), 4);
    assert_eq!(b[3], (MAX_FINITE_BITS, 0));
    assert_eq!(f64::from_bits(MAX_FINITE_BITS), f64::MAX);
    assert_eq!(b[0], (10.0f64.to_bits(), 0));
    assert_eq!(h.count(), 0);
}

#[test]
fn histogram_first_bucket_at_least_value() {
    let mut h = Histogram::new(bits(&[0.005, 0.01, 0.025, 0.05, 0.1, 0.25, 0.5, 1.0, 2.5, 5.0, 10.0]));
    assert_eq!(h.observe_and_bucket(4.2f64.to_bits()), Some(9));
    assert_eq!(h.observe_and_bucket(5.0f64.to_bits()), Some(9));
    assert_eq!(h.observe_and_bucket(0.0f64.to_bits()), Some(0));
    assert_eq!(h.observe_and_bucket((-3.0f64).to_bits()), Some(0));
    assert_eq!(h.observe_and_bucket(1e9f64.to_bits()), Some(11));
    assert_eq!(h.observe_and_bucket(f64::NEG_INFINITY.to_bits()), Some(0));
    assert_eq!(h.observe_and_bucket(f64::INFINITY.to_bits()), None);
    assert_eq!(h.observe_and_bucket(f64::NAN.to_bits()), None);
    assert_eq!(h.count(), 8);
    assert_eq!(h.buckets()[9].1, 2);
    assert_eq!(h.buckets()[0].1, 3);
    assert_eq!(h.buckets()[11].1, 1);
}

#[test]
fn histogram_negative_bounds_and_zeros() {
    let mut h = Histogram::new(bits(&[-2.0, -0.0, 3.0]));
    assert_eq!(h.observe_and_bucket((-5.0f64).to_bits()), Some(0));
    assert_eq!(h.observe_and_bucket((-1.0f64).to_bits()), Some(1));
    // 0.0 <= -0.0 holds for doubles.
    assert_eq!(h.observe_and_bucket(0.0f64.to_bits()), Some(1));
    assert_eq!(h.observe_and_bucket(2.0f64.to_bits()), Some(2));
    let mut n = Histogram::new(bits(&[f64::NAN, f64::INFINITY]));
    assert_eq!(n.observe_and_bucket(1.0f64.to_bits()), Some(1));
    assert_eq!(n.observe_and_bucket(f64::INFINITY.to_bits()), Some(1));
}

#[test]
fn histogram_bucket_total_counts_placed_values() {
    let mut h = Histogram::new(bits(&[1.0, 2.0]));
    let mut placed = 0;
    for v in [0.5f64, 1.5, 2.5, f64::NAN, f64::INFINITY, 1e300] {
        if h.observe_and_bucket(v.to_bits()).is_some() {
            placed += 1;
        }
    }
    let total: u64 = h.buckets().iter().map(|b| b.1).sum();
    assert_eq!(total, placed);
    assert_eq!(placed, 4);
    assert_eq!(h.count(), 6);
}
