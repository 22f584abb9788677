//! Newtypes for physical units: millivolts, milliamps, degrees, timer ticks,
//! raw ADC counts, and the conversions between them.
use vstd::prelude::*;
use crate::functions::tdiv;

verus! {

/// Battery voltage in millivolts.
#[derive(Clone, Copy, PartialEq, Eq, Structural, PartialOrd, Ord, Debug)]
pub struct MilliVolts(pub u16);

impl MilliVolts {

    /// Convert to centivolts for KISS telemetry.
    pub fn to_centivolts(self) -> (r: u16)
        ensures
            r == self.0 / 10,
    {
        self.0 / 10
    }

    /// Per-cell check: voltage < cell_count * per_cell_mv, with a non-zero threshold.
    pub fn below_cell_threshold(self, cell_count: u8, per_cell_mv: u16) -> (r: bool)
        requires
            cell_count * per_cell_mv <= u16::MAX,
        ensures
            r == (cell_count * per_cell_mv > 0 && self.0 < cell_count * per_cell_mv),
    {
        let threshold = cell_count as u16 * per_cell_mv;
        threshold > 0 && self.0 < threshold
    }
}

/// Motor current in milliamps.
#[derive(Clone, Copy, PartialEq, Eq, Structural, PartialOrd, Ord, Debug)]
pub struct MilliAmps(pub i16);

impl MilliAmps {

    /// Convert to centiamps for KISS telemetry (the quotient truncated, then
    /// reinterpreted as unsigned).
    pub fn to_centiamps(self) -> (r: u16)
        ensures
            r == (tdiv(self.0 as int, 10) as u16),
    {
        (self.0 / 10) as u16
    }
}

/// Temperature in degrees Celsius.
#[derive(Clone, Copy, PartialEq, Eq, Structural, PartialOrd, Ord, Debug)]
pub struct DegreesCelsius(pub i16);

impl DegreesCelsius {
    /// As i8 for the KISS telemetry packet (truncating).
    pub fn to_i8(self) -> (r: i8)
        ensures
            r == self.0 as i8,
    {
        self.0 as i8
    }
}

/// Timer ticks (0.5us resolution at a 2MHz timer clock).
#[derive(Clone, Copy, PartialEq, Eq, Structural, PartialOrd, Ord, Debug)]
pub struct TimerTicks(pub u32);

impl TimerTicks {

    /// Convert to eRPM in units of 100 eRPM: 600000 / ticks, or 0 for no ticks.
    pub fn to_erpm_100(self) -> (r: u16)
        ensures
            r == if self.0 > 0 { (600000u32 / self.0) as u16 } else { 0u16 },
    {
        if self.0 > 0 {
            (600000 / self.0) as u16
        } else {
            0
        }
    }
}

/// Raw ADC count (12-bit).
#[derive(Clone, Copy, PartialEq, Eq, Structural, Debug)]
pub struct AdcCount(pub u16);

/// Millivolts measured at a voltage divider: `count * 3300 / 4095 * divider / 100`.
pub open spec fn adc_millivolts(count: u16, voltage_divider: u16) -> u16 {
    (count * 3300 / 4095 * voltage_divider / 100) as u16
}

/// Milliamps from a current sensor: `(count * 3300 / 41 - offset * 100) / mv_per_amp`,
/// or 0 without a sensitivity.
pub open spec fn adc_milliamps(count: u16, current_offset: i16, mv_per_amp: u16) -> i16 {
    if mv_per_amp > 0 {
        tdiv(count * 3300 / 41 - current_offset * 100, mv_per_amp as int) as i16
    } else {
        0
    }
}

impl AdcCount {
    /// Convert to millivolts given a voltage divider ratio.
    pub fn to_millivolts(self, voltage_divider: u16) -> (r: MilliVolts)
        ensures
            r.0 == adc_millivolts(self.0, voltage_divider),
    {
        let a = self.0 as u32 * 3300 / 4095;
        assert(a <= 52812);
        assert(a * voltage_divider <= 52812 * 65535) by (nonlinear_arith)
            requires a <= 52812, voltage_divider <= 65535;
        MilliVolts((a * voltage_divider as u32 / 100) as u16)
    }

    /// Convert to milliamps given offset and sensitivity.
    pub fn to_milliamps(self, current_offset: i16, mv_per_amp: u16) -> (r: MilliAmps)
        ensures
            r.0 == adc_milliamps(self.0, current_offset, mv_per_amp),
    {
        let mv = (self.0 as i32) * 3300 / 41 - (current_offset as i32) * 100;
        if mv_per_amp > 0 {
            MilliAmps((mv / mv_per_amp as i32) as i16)
        } else {
            MilliAmps(0)
        }
    }
}

/// Temperature by linear interpolation between two calibration points, or 25
/// degrees when the two calibration readings coincide.
pub open spec fn calc_temperature_spec(raw: u16, ts_cal1: u16, ts_cal2: u16, cal1_temp: i32, cal2_temp: i32) -> i16 {
    if ts_cal2 == ts_cal1 {
        25
    } else {
        (tdiv((cal2_temp - cal1_temp) * (raw - ts_cal1), ts_cal2 - ts_cal1) + cal1_temp) as i16
    }
}

/// What the temperature interpolation asks: no intermediate overflows an `i32`.
pub open spec fn calc_temperature_ok(raw: u16, ts_cal1: u16, ts_cal2: u16, cal1_temp: i32, cal2_temp: i32) -> bool {
    &&& i32::MIN <= cal2_temp - cal1_temp <= i32::MAX
    &&& i32::MIN <= (cal2_temp - cal1_temp) * (raw - ts_cal1) <= i32::MAX
    &&& (ts_cal2 != ts_cal1 ==> i32::MIN <= tdiv((cal2_temp - cal1_temp) * (raw - ts_cal1), ts_cal2 - ts_cal1) + cal1_temp <= i32::MAX)
}

/// Temperature calculation from a raw ADC reading and the two calibration values.
pub fn calc_temperature_pure(raw: u16, ts_cal1: u16, ts_cal2: u16, cal1_temp: i32, cal2_temp: i32) -> (r: DegreesCelsius)
    requires
        calc_temperature_ok(raw, ts_cal1, ts_cal2, cal1_temp, cal2_temp),
    ensures
        r.0 == calc_temperature_spec(raw, ts_cal1, ts_cal2, cal1_temp, cal2_temp),
{
    let c1 = ts_cal1 as i32;
    let c2 = ts_cal2 as i32;
    if c2 == c1 {
        return DegreesCelsius(25);
    }
    let num = (cal2_temp - cal1_temp) * (raw as i32 - c1);
    let den = c2 - c1;
    if den < 0 {
        let n64 = -(num as i64);
        let d = -den;
        let q = n64 / (d as i64);
        return DegreesCelsius((q + cal1_temp as i64) as i16);
    }
    DegreesCelsius((num / den + cal1_temp) as i16)
}

} // verus!
