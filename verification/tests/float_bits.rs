use prometheus_histogram::bounds::get_native_histogram_bounds;
use prometheus_histogram::float_bits::frexp;

#[test]
fn frexp_normal_values() {
    assert_eq!(frexp(1.0f64.to_bits()), (0.5f64.to_bits(), 1));
    assert_eq!(frexp(3.0f64.to_bits()), (0.75f64.to_bits(), 2));
    assert_eq!(frexp(0.1f64.to_bits()), (0.8f64.to_bits(), -3));
    assert_eq!(frexp((-6.0f64).to_bits()), (0.75f64.to_bits(), 3));
    assert_eq!(frexp(0.0f64.to_bits()), (0, 0));
    assert_eq!(frexp((-0.0f64).to_bits()), (0, 0));
}

#[test]
fn frexp_subnormal_values() {
    // 2^-1074 = 0.5 * 2^-1073
    assert_eq!(frexp(5e-324f64.to_bits()), (0.5f64.to_bits(), -1073));
    // 3 * 2^-1074 = 0.75 * 2^-1072
    assert_eq!(frexp(1.5e-323f64.to_bits()), (0.75f64.to_bits(), -1072));
    let v = f64::MIN_POSITIVE / 3.0;
    let (f, e) = frexp(v.to_bits());
    let f = f64::from_bits(f);
    assert!((0.5..1.0).contains(&f));
    assert_eq!(f * 2f64.powi(e + 60) / 2f64.powi(60), v);
}

#[test]
fn bounds_tables() {
    for schema in 0..=8 {
        let b = get_native_histogram_bounds(schema);
        assert_eq!(b.len(), 1 << schema);
        assert_eq!(f64::from_bits(b[0]), 0.5);
        for w in b.windows(2) {
            assert!(f64::from_bits(w[0]) < f64::from_bits(w[1]));
        }
        assert!(f64::from_bits(b[b.len() - 1]) < 1.0);
    }
    assert_eq!(f64::from_bits(get_native_histogram_bounds(1)[1]), 0.7071067811865475);
    assert_eq!(
        get_native_histogram_bounds(2),
        [0.5f64, 0.5946035575013605, 0.7071067811865475, 0.8408964152537144].map(f64::to_bits)
    );
    assert_eq!(f64::from_bits(get_native_histogram_bounds(7)[23]), 0.5663192597993596);
    assert_eq!(f64::from_bits(get_native_histogram_bounds(8)[255]), 0.9972960560854701);
}

#[test]
fn bounds_follow_exponential_buckets() {
    for schema in 0..=8 {
        let b = get_native_histogram_bounds(schema);
        let n = b.len() as f64;
        for (i, bits) in b.iter().enumerate() {
            let exact = 2f64.powf(i as f64 / n - 1.0);
            assert!((f64::from_bits(*bits) - exact).abs() <= 1e-15, "schema {} index {}", schema, i);
        }
    }
}
