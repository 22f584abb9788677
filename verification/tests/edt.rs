use rm32::edt::{EDT_TEMPERATURE, EDT_VOLTAGE, EDT_CURRENT, EDT_SPECIAL, EDT_INIT_FRAME, EDT_DEINIT_FRAME, EdtScheduler, EdtFrame};

#[test]
fn init_frame_sent_once() {
    let mut s = EdtScheduler::default();
    s.send_init = true;
    match s.next_frame(0, 0, 0) {
        EdtFrame::Extended(v) => assert_eq!(v, EDT_INIT_FRAME),
        _ => panic!("expected init frame"),
    }
    assert!(s.active);
    assert!(!s.send_init);
}

#[test]
fn deinit_frame_deactivates() {
    let mut s = EdtScheduler::default();
    s.active = true;
    s.send_deinit = true;
    match s.next_frame(0, 0, 0) {
        EdtFrame::Extended(v) => assert_eq!(v, EDT_DEINIT_FRAME),
        _ => panic!("expected deinit frame"),
    }
    assert!(!s.active);
}

#[test]
fn inactive_always_erpm() {
    let mut s = EdtScheduler::default();
    for _ in 0..300 {
        assert!(matches!(s.next_frame(500, 16800, 25), EdtFrame::Erpm));
    }
}

#[test]
fn current_sent_every_40() {
    let mut s = EdtScheduler::default();
    s.active = true;
    s.counter = u16::MAX; // next increment wraps to 0

    let frame = s.next_frame(1500, 16800, 30);
    match frame {
        EdtFrame::Extended(v) => {
            assert_eq!(v >> 8, EDT_CURRENT);
            assert_eq!(v & 0xFF, 30); // 1500mA / 50 = 30
        }
        _ => panic!("expected current frame at counter=0"),
    }
}

#[test]
fn alternates_extended_erpm() {
    let mut s = EdtScheduler::default();
    s.active = true;
    s.counter = u16::MAX;

    // First: extended (current at counter=0)
    assert!(matches!(
        s.next_frame(1000, 16800, 25),
        EdtFrame::Extended(_)
    ));
    // Next: forced eRPM
    assert!(matches!(s.next_frame(1000, 16800, 25), EdtFrame::Erpm));
}

#[test]
fn voltage_encoding() {
    let mut s = EdtScheduler::default();
    s.active = true;
    s.counter = 99; // next will be 100

    match s.next_frame(0, 4200, 25) {
        EdtFrame::Extended(v) => {
            assert_eq!(v >> 8, EDT_VOLTAGE);
            assert_eq!(v & 0xFF, 168); // 4200mV / 25 = 168
        }
        _ => panic!("expected voltage frame"),
    }
}

#[test]
fn temperature_encoding() {
    let mut s = EdtScheduler::default();
    s.active = true;
    s.counter = 149; // next will be 150

    match s.next_frame(0, 0, 45) {
        EdtFrame::Extended(v) => {
            assert_eq!(v >> 8, EDT_TEMPERATURE);
            assert_eq!(v & 0xFF, 45);
        }
        _ => panic!("expected temp frame"),
    }
}
