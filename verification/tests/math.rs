use tcp_cong::math::{cubic_root, fls64};

#[test]
fn fls64_values() {
    assert_eq!(fls64(0), 0);
    assert_eq!(fls64(1), 1);
    assert_eq!(fls64(2), 2);
    assert_eq!(fls64(3), 2);
    assert_eq!(fls64(64), 7);
    assert_eq!(fls64(u64::MAX), 64);
    assert_eq!(fls64(1u64 << 63), 64);
}

#[test]
fn cubic_root_of_zero_is_zero() {
    assert_eq!(cubic_root(0), 0);
}

#[test]
fn cubic_root_exact_samples() {
    assert_eq!(cubic_root(1), 1);
    assert_eq!(cubic_root(8), 2);
    assert_eq!(cubic_root(27), 3);
    assert_eq!(cubic_root(64), 4);
    assert_eq!(cubic_root(1000), 10);
    assert_eq!(cubic_root(1_000_000), 100);
    assert_eq!(cubic_root(1_000_000_000), 1000);
    assert_eq!(cubic_root(1_000_000_000_000), 9999);
    assert_eq!(cubic_root(1u64 << 32), 1625);
    assert_eq!(cubic_root(1u64 << 40), 10323);
}

#[test]
fn cubic_root_tracks_cbrt_on_table_range() {
    // On the table range the approximation is the rounded cube root, off
    // by at most one.
    for a in 1u64..64 {
        let exact = (a as f64).cbrt().round() as i64;
        let approx = cubic_root(a) as i64;
        assert!((approx - exact).abs() <= 1, "a={a} approx={approx} exact={exact}");
    }
}

#[test]
fn cubic_root_tracks_cbrt_on_large_inputs() {
    for a in [1000u64, 4096, 1_000_000, 1_000_000_000, 1_000_000_000_000] {
        let exact = (a as f64).cbrt();
        let approx = cubic_root(a) as f64;
        assert!((approx - exact).abs() / exact < 0.01, "a={a}");
    }
}

#[test]
fn cubic_root_monotone_from_table_end() {
    // The approximation never decreases once past the few small inputs
    // where the lookup-and-refine seam dips.
    let mut prev = cubic_root(464);
    for a in 465u64..200_000 {
        let c = cubic_root(a);
        assert!(c >= prev, "a={a}");
        prev = c;
    }
    // ... and it is monotone on the whole table range as well.
    let mut prev = cubic_root(0);
    for a in 1u64..64 {
        let c = cubic_root(a);
        assert!(c >= prev, "a={a}");
        prev = c;
    }
}
