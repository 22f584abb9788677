use rm32::sine::{PhasePositions};

#[test]
fn forward_decrements() {
    let mut p = PhasePositions { a: 100, b: 219, c: 339 };
    p.advance(true);
    assert_eq!(p.a, 99);
    assert_eq!(p.b, 218);
    assert_eq!(p.c, 338);
}

#[test]
fn reverse_increments() {
    let mut p = PhasePositions { a: 100, b: 219, c: 339 };
    p.advance(false);
    assert_eq!(p.a, 101);
    assert_eq!(p.b, 220);
    assert_eq!(p.c, 340);
}

#[test]
fn forward_wraps_0_to_359() {
    let mut p = PhasePositions { a: 0, b: 0, c: 0 };
    p.advance(true);
    assert_eq!(p.a, 359);
    assert_eq!(p.b, 359);
    assert_eq!(p.c, 359);
}

#[test]
fn reverse_wraps_359_to_0() {
    let mut p = PhasePositions { a: 359, b: 359, c: 359 };
    p.advance(false);
    assert_eq!(p.a, 0);
    assert_eq!(p.b, 0);
    assert_eq!(p.c, 0);
}
