use rm32::filter::{EWMA_MAX_BITS, EwmaPow2};

#[test]
fn ewma_first_sample_passthrough() {
    let mut f = EwmaPow2::<3>::new();
    assert_eq!(f.update(1000), 1000);
}

#[test]
fn ewma_converges_near_constant() {
    let mut f = EwmaPow2::<3>::new();
    f.update(0);
    for _ in 0..100 {
        f.update(800);
    }
    // With fractional state, convergence is exact (no dead zone)
    let v = f.value();
    assert!(v >= 799 && v <= 800, "expected ~800, got {}", v);
}

#[test]
fn ewma_smooths_step() {
    let mut f = EwmaPow2::<3>::new();
    f.update(0);
    let v1 = f.update(800);
    // First step: 0 + (800-0)/8 = 100
    assert_eq!(v1, 100);
    let v2 = f.update(800);
    // Second: 100 + (800-100)/8 = 100 + 87 = 187
    assert_eq!(v2, 187);
}

#[test]
fn ewma_k1_fast_response() {
    let mut f = EwmaPow2::<1>::new();
    f.update(0);
    let v = f.update(1000);
    // 0 + (1000-0)/2 = 500
    assert_eq!(v, 500);
}

#[test]
fn ewma_large_sample_wraps_through_i32() {
    let mut f = EwmaPow2::<3>::new();
    assert_eq!(f.update(0), 0);
    assert_eq!(f.update(40000), 62344);
    assert_eq!(f.state_bits, 4085776384);
}
