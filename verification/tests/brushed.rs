use rm32::brushed::{BrushedDirection, BrushedState, BrushedOutput, brushed_tick};

#[test]
fn zero_throttle_no_duty() {
    let mut state = BrushedState::default();
    let out = brushed_tick(&mut state, 0, false, 2000);
    assert_eq!(out.duty, 0);
}

#[test]
fn mid_throttle_unidirectional() {
    let mut state = BrushedState::default();
    let out = brushed_tick(&mut state, 1047, false, 2000);
    assert!(out.duty > 800 && out.duty < 1000);
}

#[test]
fn bidirectional_forward() {
    let mut state = BrushedState::default();
    let out = brushed_tick(&mut state, 1500, true, 2000);
    assert_eq!(out.direction, BrushedDirection::Forward);
    assert!(out.duty > 0);
}

#[test]
fn bidirectional_reverse() {
    let mut state = BrushedState::default();
    let out = brushed_tick(&mut state, 500, true, 2000);
    assert_eq!(out.direction, BrushedDirection::Reverse);
    assert!(out.duty > 0);
}
