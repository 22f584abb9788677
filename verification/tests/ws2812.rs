use rm32::ws2812::{WS2812Pin, LedStatus, send_rgb, send_status};

struct FakePin {
    call_count: u32,
}

impl FakePin {
    fn new() -> Self {
        Self { call_count: 0 }
    }
}

impl WS2812Pin for FakePin {
    fn set_high(&mut self) {
        self.call_count += 1;
    }
    fn set_low(&mut self) {
        self.call_count += 1;
    }
    fn delay_ns(&mut self, _ns: u32) {}
}

#[test]
fn send_rgb_produces_correct_call_count() {
    let mut pin = FakePin::new();
    send_rgb(&mut pin, 0xFF, 0x00, 0x55);
    // 24 bits × 2 (high+low) + 1 final low for reset = 49
    assert_eq!(pin.call_count, 49);
}

#[test]
fn status_colors() {
    assert_eq!(LedStatus::Boot.rgb(), (125, 0, 0));
    assert_eq!(LedStatus::Armed.rgb(), (0, 255, 0));
    assert_eq!(LedStatus::Error.rgb(), (255, 0, 0));
    assert_eq!(LedStatus::Off.rgb(), (0, 0, 0));
}
