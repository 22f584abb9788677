//! External NTC thermistor temperature lookup (10K NTC B3950): ADC counts to
//! degrees Celsius by a piecewise-linear curve sampled every 16 counts.
use vstd::prelude::*;
use crate::units::DegreesCelsius;

verus! {

/// Temperature of an ADC reading on the sampled curve: 150°C below 200 counts,
/// then linear segments 150→100 (200-500), 100→40 (500-1500), 40→0 (1500-3000),
/// and 0°C from 3000 up.
pub open spec fn ntc_curve(adc: int) -> int {
    if adc < 200 {
        150
    } else if adc < 500 {
        150 - (adc - 200) * 50 / 300
    } else if adc < 1500 {
        100 - (adc - 500) * 60 / 1000
    } else if adc < 3000 {
        40 - (adc - 1500) * 40 / 1500
    } else {
        0
    }
}

/// The table index of a reading: `raw / 16`, at most 255.
pub open spec fn ntc_index(raw_adc: u16) -> int {
    if raw_adc / 16 < 255 { (raw_adc / 16) as int } else { 255 }
}

fn ntc_table(idx: u16) -> (r: i16)
    requires
        idx <= 255,
    ensures
        r == ntc_curve(idx * 16),
{
    let adc = idx as i32 * 16;
    let v = if adc < 200 {
        150
    } else if adc < 500 {
        150 - (adc - 200) * 50 / 300
    } else if adc < 1500 {
        100 - (adc - 500) * 60 / 1000
    } else if adc < 3000 {
        40 - (adc - 1500) * 40 / 1500
    } else {
        0
    };
    v as i16
}

/// Convert a raw ADC reading from the external NTC to a temperature.
pub fn ntc_degrees(raw_adc: u16) -> (r: DegreesCelsius)
    ensures
        r.0 == ntc_curve(ntc_index(raw_adc) * 16),
        0 <= r.0 <= 150,
{
    let idx = raw_adc / 16;
    let idx = if idx < 255 { idx } else { 255 };
    DegreesCelsius(ntc_table(idx))
}

/// A hotter thermistor (lower reading) never reads colder.
pub proof fn lemma_ntc_monotonic(a: u16, b: u16)
    requires
        a <= b,
    ensures
        ntc_curve(ntc_index(b) * 16) <= ntc_curve(ntc_index(a) * 16),
{
    let x = ntc_index(a) * 16;
    let y = ntc_index(b) * 16;
    assert(x <= y);
    if 200 <= x && x < 500 && 200 <= y && y < 500 {
        assert((x - 200) * 50 <= (y - 200) * 50);
        vstd::arithmetic::div_mod::lemma_div_is_ordered((x - 200) * 50, (y - 200) * 50, 300);
    }
    if 500 <= x && x < 1500 && 500 <= y && y < 1500 {
        vstd::arithmetic::div_mod::lemma_div_is_ordered((x - 500) * 60, (y - 500) * 60, 1000);
    }
    if 1500 <= x && x < 3000 && 1500 <= y && y < 3000 {
        vstd::arithmetic::div_mod::lemma_div_is_ordered((x - 1500) * 40, (y - 1500) * 40, 1500);
    }
}

} // verus!
