//! Hardware interfaces the control code drives: PWM timer, comparator, phase
//! outputs, interval and commutation timers, system control, ADC and telemetry UART.
//! Boards implement them; the control code only issues commands through them and
//! reads the comparator level and timer count.
//!
//! For the proofs a board is modelled by `HalLog`: the commands issued to it so
//! far, the level its comparator reads and its interval timer's count. Each
//! command appends itself to the record; a command leaves the comparator level
//! alone unless it drives the comparator, and the timer count alone unless it
//! sets or waits on the interval timer.
use vstd::prelude::*;
use crate::units::DegreesCelsius;

verus! {

/// A command issued to the board.
#[derive(Clone, Copy, PartialEq, Eq, Debug, Structural)]
pub enum HalCall {
    DutyAll(u16),
    AutoReload(u16),
    Prescaler(u16),
    Compare1(u16),
    Compare2(u16),
    Compare3(u16),
    UpdateEvent,
    ComparatorStep(u8, bool),
    ChangeInput,
    EnableComparatorInterrupts,
    MaskComparatorInterrupts,
    ComStep(u8),
    AllOff,
    FullBrake,
    AllPwm,
    ProportionalBrake,
    SetCount(u32),
    WaitForCount(u16),
    SetAndEnable(u16),
    DisableComInterrupt,
    EnableComInterrupt,
    EnableIrq,
    DisableIrq,
    ReloadWatchdog,
    DelayMicros(u32),
    DelayMillis(u32),
}

/// The model of a board the proofs reason about. A board on which the proofs
/// rely must define all three functions so that its commands meet the contracts
/// below; the defaults (an empty record, a low comparator, a zero count) stand
/// only for boards that are not verified, and no command of theirs meets those
/// contracts.
pub trait HalLog: Sized {
    /// The commands issued to this device so far, oldest first.
    open spec fn hal_calls(&self) -> Seq<HalCall> {
        Seq::empty()
    }

    /// The level the comparator output reads.
    open spec fn comparator_level(&self) -> bool {
        false
    }

    /// The count the interval timer reads.
    open spec fn timer_count(&self) -> u32 {
        0
    }
}

/// `after` is `before` with command `c` recorded, the comparator level and the
/// timer count unchanged.
pub open spec fn logged<H: HalLog>(before: H, after: H, c: HalCall) -> bool {
    &&& after.hal_calls() == before.hal_calls().push(c)
    &&& after.comparator_level() == before.comparator_level()
    &&& after.timer_count() == before.timer_count()
}

/// A comparator command: recorded, the timer count unchanged, the level free.
pub open spec fn logged_comparator<H: HalLog>(before: H, after: H, c: HalCall) -> bool {
    &&& after.hal_calls() == before.hal_calls().push(c)
    &&& after.timer_count() == before.timer_count()
}

/// An interval-timer command: recorded, the comparator level unchanged, the count free.
pub open spec fn logged_timer<H: HalLog>(before: H, after: H, c: HalCall) -> bool {
    &&& after.hal_calls() == before.hal_calls().push(c)
    &&& after.comparator_level() == before.comparator_level()
}

pub trait PwmOutput: HalLog {
    fn set_duty_all(&mut self, duty: u16)
        ensures
            logged(*old(self), *final(self), HalCall::DutyAll(duty)),
    ;
    fn set_auto_reload(&mut self, arr: u16)
        ensures
            logged(*old(self), *final(self), HalCall::AutoReload(arr)),
    ;
    fn set_prescaler(&mut self, psc: u16)
        ensures
            logged(*old(self), *final(self), HalCall::Prescaler(psc)),
    ;
    fn set_compare1(&mut self, val: u16)
        ensures
            logged(*old(self), *final(self), HalCall::Compare1(val)),
    ;
    fn set_compare2(&mut self, val: u16)
        ensures
            logged(*old(self), *final(self), HalCall::Compare2(val)),
    ;
    fn set_compare3(&mut self, val: u16)
        ensures
            logged(*old(self), *final(self), HalCall::Compare3(val)),
    ;
    fn generate_update_event(&mut self)
        ensures
            logged(*old(self), *final(self), HalCall::UpdateEvent),
    ;
}

pub trait Comparator: HalLog {
    fn output_level(&self) -> (r: bool)
        ensures
            r == self.comparator_level(),
    ;
    fn set_step(&mut self, step: u8, rising: bool)
        ensures
            logged_comparator(*old(self), *final(self), HalCall::ComparatorStep(step, rising)),
    ;
    fn change_input(&mut self)
        ensures
            logged_comparator(*old(self), *final(self), HalCall::ChangeInput),
    ;
    fn enable_interrupts(&mut self)
        ensures
            logged(*old(self), *final(self), HalCall::EnableComparatorInterrupts),
    ;
    fn mask_interrupts(&mut self)
        ensures
            logged(*old(self), *final(self), HalCall::MaskComparatorInterrupts),
    ;
}

pub trait PhaseOutput: HalLog {
    fn com_step(&mut self, step: u8)
        ensures
            logged(*old(self), *final(self), HalCall::ComStep(step)),
    ;
    fn all_off(&mut self)
        ensures
            logged(*old(self), *final(self), HalCall::AllOff),
    ;
    fn full_brake(&mut self)
        ensures
            logged(*old(self), *final(self), HalCall::FullBrake),
    ;
    fn all_pwm(&mut self)
        ensures
            logged(*old(self), *final(self), HalCall::AllPwm),
    ;
    fn proportional_brake(&mut self)
        ensures
            logged(*old(self), *final(self), HalCall::ProportionalBrake),
    ;
}

pub trait IntervalTimer: HalLog {
    fn count(&self) -> (r: u32)
        ensures
            r == self.timer_count(),
    ;
    fn set_count(&mut self, val: u32)
        ensures
            logged_timer(*old(self), *final(self), HalCall::SetCount(val)),
    ;
    /// Block until the low 16 bits of the count reach `target`.
    fn wait_for_count(&mut self, target: u16)
        ensures
            logged_timer(*old(self), *final(self), HalCall::WaitForCount(target)),
    ;
}

pub trait ComTimer: HalLog {
    fn set_and_enable(&mut self, timeout: u16)
        ensures
            logged(*old(self), *final(self), HalCall::SetAndEnable(timeout)),
    ;
    fn disable_interrupt(&mut self)
        ensures
            logged(*old(self), *final(self), HalCall::DisableComInterrupt),
    ;
    fn enable_interrupt(&mut self)
        ensures
            logged(*old(self), *final(self), HalCall::EnableComInterrupt),
    ;
}

pub trait System: HalLog {
    fn enable_irq(&mut self)
        ensures
            logged(*old(self), *final(self), HalCall::EnableIrq),
    ;
    fn disable_irq(&mut self)
        ensures
            logged(*old(self), *final(self), HalCall::DisableIrq),
    ;
    fn reload_watchdog(&mut self)
        ensures
            logged(*old(self), *final(self), HalCall::ReloadWatchdog),
    ;
    fn delay_micros(&mut self, us: u32)
        ensures
            logged(*old(self), *final(self), HalCall::DelayMicros(us)),
    ;
    fn delay_millis(&mut self, ms: u32)
        ensures
            logged(*old(self), *final(self), HalCall::DelayMillis(ms)),
    ;
}

/// The readings an ADC's next reads return, and the board's temperature
/// conversion: the model the proofs reason about. A board on which the proofs
/// rely must define these functions so that its reads meet the contracts below;
/// the defaults stand only for boards that are not verified.
pub trait Adc: Sized {
    /// The voltage conversion the next voltage read returns.
    open spec fn voltage_reading(&self) -> u16 {
        0
    }

    /// The current conversion the next current read returns.
    open spec fn current_reading(&self) -> u16 {
        0
    }

    /// The temperature conversion the next temperature read returns.
    open spec fn temperature_reading(&self) -> u16 {
        0
    }

    /// The board's conversion of a raw internal-sensor reading to degrees. Reads
    /// change neither the readings nor this conversion.
    open spec fn temperature_of(&self, raw: u16) -> DegreesCelsius {
        DegreesCelsius(0)
    }

    fn raw_voltage(&mut self) -> (r: u16)
        ensures
            r == old(self).voltage_reading(),
            final(self).voltage_reading() == old(self).voltage_reading(),
            final(self).current_reading() == old(self).current_reading(),
            final(self).temperature_reading() == old(self).temperature_reading(),
            forall|raw: u16| #[trigger] final(self).temperature_of(raw) == old(self).temperature_of(raw),
    ;
    fn raw_current(&mut self) -> (r: u16)
        ensures
            r == old(self).current_reading(),
            final(self).voltage_reading() == old(self).voltage_reading(),
            final(self).current_reading() == old(self).current_reading(),
            final(self).temperature_reading() == old(self).temperature_reading(),
            forall|raw: u16| #[trigger] final(self).temperature_of(raw) == old(self).temperature_of(raw),
    ;
    fn raw_temperature(&mut self) -> (r: u16)
        ensures
            r == old(self).temperature_reading(),
            final(self).voltage_reading() == old(self).voltage_reading(),
            final(self).current_reading() == old(self).current_reading(),
            final(self).temperature_reading() == old(self).temperature_reading(),
            forall|raw: u16| #[trigger] final(self).temperature_of(raw) == old(self).temperature_of(raw),
    ;
    fn calc_temperature(&mut self, raw: u16) -> (r: DegreesCelsius)
        ensures
            r == old(self).temperature_of(raw),
            final(self).voltage_reading() == old(self).voltage_reading(),
            final(self).current_reading() == old(self).current_reading(),
            final(self).temperature_reading() == old(self).temperature_reading(),
            forall|raw: u16| #[trigger] final(self).temperature_of(raw) == old(self).temperature_of(raw),
    ;
    /// Start the next conversions (the readings may then change).
    fn start_conversion(&mut self);
}

/// A telemetry UART: the model the proofs reason about is the packets sent so
/// far, oldest first. A UART on which the proofs rely must define it; the
/// default stands only for UARTs that are not verified.
pub trait TelemetryUart: Sized {
    open spec fn sent(&self) -> Seq<Seq<u8>> {
        Seq::empty()
    }

    fn send_dma(&mut self, data: &[u8])
        ensures
            final(self).sent() == old(self).sent().push(data@),
    ;
}

} // verus!
