use rm32::commutation::{Commutation};

#[test]
fn forward_wraps_6_to_1() {
    let mut c = Commutation::new();
    c.step = 6;
    c.advance();
    assert_eq!(c.step, 1);
    assert!(c.desync_check);
}

#[test]
fn reverse_wraps_1_to_6() {
    let mut c = Commutation::new();
    c.forward = false;
    c.step = 1;
    c.advance();
    assert_eq!(c.step, 6);
    assert!(c.desync_check);
}

#[test]
fn forward_rising_parity() {
    let mut c = Commutation::new();
    c.step = 1;
    c.advance(); // step=2
    assert!(!c.rising); // 2%2==0
    c.advance(); // step=3
    assert!(c.rising); // 3%2==1
}

#[test]
fn reverse_rising_parity() {
    let mut c = Commutation::new();
    c.forward = false;
    c.step = 4;
    c.advance(); // step=3
    // rising is set on even steps
    assert_eq!(c.rising, c.step % 2 == 0);
}

#[test]
fn forward_full_cycle() {
    let mut c = Commutation::new();
    c.step = 1;
    for expected in [2, 3, 4, 5, 6, 1] {
        c.advance();
        assert_eq!(c.step, expected);
    }
    assert!(c.desync_check); // set on wrap
}

#[test]
fn reverse_full_cycle() {
    let mut c = Commutation::new();
    c.forward = false;
    c.step = 6;
    for expected in [5, 4, 3, 2, 1, 6] {
        c.advance();
        assert_eq!(c.step, expected);
    }
    assert!(c.desync_check);
}

#[test]
fn desync_check_only_on_wrap() {
    let mut c = Commutation::new();
    c.step = 3;
    c.desync_check = false;
    c.advance(); // 3->4, no wrap
    assert!(!c.desync_check);
}

#[test]
fn multiple_wraps_desync_resets() {
    let mut c = Commutation::new();
    c.step = 6;
    c.advance(); // wraps, desync_check = true
    assert!(c.desync_check);
    c.desync_check = false;
    // Another full cycle
    for _ in 0..6 {
        c.advance();
    }
    assert!(c.desync_check);
}

#[test]
fn rising_alternates_forward() {
    let mut c = Commutation::new();
    c.step = 1;
    let mut risings = [false; 6];
    for i in 0..6 {
        c.advance();
        risings[i] = c.rising;
    }
    // Steps 2,3,4,5,6,1 -> rising: false,true,false,true,false,true
    assert_eq!(risings, [false, true, false, true, false, true]);
}
