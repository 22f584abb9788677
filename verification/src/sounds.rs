//! Tones played through the motor: a phase pair is energised at an audio PWM
//! frequency (the prescaler) with a small duty (the volume) for each note.
use vstd::prelude::*;
use crate::hal::{HalCall, PhaseOutput, PwmOutput, System};

verus! {

/// Beep generator: the duty used as volume, and the PWM auto-reload to restore.
#[derive(Clone, Copy)]
pub struct Sounds {
    pub volume: u8,
    pub tim1_autoreload: u16,
}

/// Auto-reload of a tone at `freq_hz` with prescaler 9: `cpu_mhz * 100000 / freq`.
pub open spec fn note_reload(freq_hz: u16, cpu_mhz: u32) -> u16 {
    (cpu_mhz * 100000 / (freq_hz as int)) as u16
}

/// Duty of a tone: the volume scaled from the normal auto-reload to the tone's.
pub open spec fn note_duty(volume: u8, reload: u16, tim1_autoreload: u16) -> u16 {
    (volume * reload / (tim1_autoreload as int)) as u16
}

/// The timer commands of one note: the normal auto-reload, the note's
/// prescaler, and the volume as the duty of all phases.
pub open spec fn note_pwm(s: Sounds, psc: u16) -> Seq<HalCall> {
    seq![HalCall::AutoReload(s.tim1_autoreload), HalCall::Prescaler(psc), HalCall::DutyAll(s.volume as u16)]
}

/// The system commands of one note: wait for its duration, then feed the watchdog.
pub open spec fn note_system(ms: u32) -> Seq<HalCall> {
    seq![HalCall::DelayMillis(ms), HalCall::ReloadWatchdog]
}

/// The timer commands that end a tune: prescaler 0 and the normal auto-reload.
pub open spec fn silence_pwm(s: Sounds) -> Seq<HalCall> {
    seq![HalCall::Prescaler(0), HalCall::AutoReload(s.tim1_autoreload)]
}

/// Loop counter value of the beacon's `k`-th note (119, 117, ..., 1).
pub open spec fn beacon_i(k: int) -> int {
    119 - 2 * k
}

/// Timer commands of the first `k` beacon notes: prescaler `10 + i / 2`.
pub open spec fn beacon_pwm(s: Sounds, k: nat) -> Seq<HalCall>
    decreases k,
{
    if k == 0 {
        Seq::empty()
    } else {
        beacon_pwm(s, (k - 1) as nat) + note_pwm(s, (10 + beacon_i(k - 1) / 2) as u16)
    }
}

/// Phase commands of the first `k` beacon notes: step `i / 20`.
pub open spec fn beacon_phase(k: nat) -> Seq<HalCall>
    decreases k,
{
    if k == 0 {
        Seq::empty()
    } else {
        beacon_phase((k - 1) as nat).push(HalCall::ComStep((beacon_i(k - 1) / 20) as u8))
    }
}

/// System commands of the first `k` beacon notes: a watchdog feed, then the
/// 10 ms note.
pub open spec fn beacon_system(k: nat) -> Seq<HalCall>
    decreases k,
{
    if k == 0 {
        Seq::empty()
    } else {
        beacon_system((k - 1) as nat).push(HalCall::ReloadWatchdog) + note_system(10)
    }
}

impl Sounds {
    /// Beeps at the default volume (duty 15) with the given auto-reload to restore.
    pub fn new(tim1_autoreload: u16) -> (r: Self)
        ensures
            r.volume == 15,
            r.tim1_autoreload == tim1_autoreload,
    {
        Self { volume: 15, tim1_autoreload }
    }

    /// Set the beep volume: 0-11 (higher values count as 11) gives duty 0-33.
    pub fn set_volume(&mut self, volume: u8)
        ensures
            final(self).volume == 3 * (if volume > 11 { 11 } else { volume }),
            final(self).tim1_autoreload == old(self).tim1_autoreload,
    {
        let v = if volume > 11 { 11 } else { volume };
        self.volume = v * 3;
    }

    fn play_note<P: PwmOutput, Q: PhaseOutput, S: System>(&self, pwm: &mut P, phase: &mut Q, sys: &mut S, prescaler: u16, step: u8, duration_ms: u32)
        ensures
            final(pwm).hal_calls() == old(pwm).hal_calls() + note_pwm(*self, prescaler),
            final(phase).hal_calls() == old(phase).hal_calls().push(HalCall::ComStep(step)),
            final(sys).hal_calls() == old(sys).hal_calls() + note_system(duration_ms),
    {
        pwm.set_auto_reload(self.tim1_autoreload);
        pwm.set_prescaler(prescaler);
        pwm.set_duty_all(self.volume as u16);
        phase.com_step(step);
        sys.delay_millis(duration_ms);
        sys.reload_watchdog();
        assert(pwm.hal_calls() =~= old(pwm).hal_calls() + note_pwm(*self, prescaler));
        assert(sys.hal_calls() =~= old(sys).hal_calls() + note_system(duration_ms));
    }

    fn silence<P: PwmOutput, Q: PhaseOutput>(&self, pwm: &mut P, phase: &mut Q)
        ensures
            final(pwm).hal_calls() == old(pwm).hal_calls() + silence_pwm(*self),
            final(phase).hal_calls() == old(phase).hal_calls().push(HalCall::AllOff),
    {
        phase.all_off();
        pwm.set_prescaler(0);
        pwm.set_auto_reload(self.tim1_autoreload);
        assert(pwm.hal_calls() =~= old(pwm).hal_calls() + silence_pwm(*self));
    }

    /// Startup tune: three ascending tones.
    pub fn play_startup<P: PwmOutput, Q: PhaseOutput, S: System>(&self, pwm: &mut P, phase: &mut Q, sys: &mut S)
        ensures
            final(pwm).hal_calls() == old(pwm).hal_calls() + note_pwm(*self, 55) + note_pwm(*self, 40) + note_pwm(*self, 25) + silence_pwm(*self),
            final(phase).hal_calls() == old(phase).hal_calls().push(HalCall::ComStep(3)).push(HalCall::ComStep(5)).push(HalCall::ComStep(1)).push(HalCall::AllOff),
            final(sys).hal_calls() == (old(sys).hal_calls().push(HalCall::DisableIrq) + note_system(200) + note_system(200) + note_system(200)).push(HalCall::EnableIrq),
    {
        sys.disable_irq();
        self.play_note(pwm, phase, sys, 55, 3, 200);
        self.play_note(pwm, phase, sys, 40, 5, 200);
        self.play_note(pwm, phase, sys, 25, 1, 200);
        self.silence(pwm, phase);
        sys.enable_irq();
    }

    /// Input detected tune: three descending tones.
    pub fn play_input<P: PwmOutput, Q: PhaseOutput, S: System>(&self, pwm: &mut P, phase: &mut Q, sys: &mut S)
        ensures
            final(pwm).hal_calls() == old(pwm).hal_calls() + note_pwm(*self, 80) + note_pwm(*self, 70) + note_pwm(*self, 40) + silence_pwm(*self),
            final(phase).hal_calls() == old(phase).hal_calls().push(HalCall::ComStep(3)).push(HalCall::ComStep(3)).push(HalCall::ComStep(3)).push(HalCall::AllOff),
            final(sys).hal_calls() == (old(sys).hal_calls().push(HalCall::DisableIrq) + note_system(100) + note_system(100) + note_system(100)).push(HalCall::EnableIrq),
    {
        sys.disable_irq();
        self.play_note(pwm, phase, sys, 80, 3, 100);
        self.play_note(pwm, phase, sys, 70, 3, 100);
        self.play_note(pwm, phase, sys, 40, 3, 100);
        self.silence(pwm, phase);
        sys.enable_irq();
    }

    /// Second input tune (higher pitched).
    pub fn play_input2<P: PwmOutput, Q: PhaseOutput, S: System>(&self, pwm: &mut P, phase: &mut Q, sys: &mut S)
        ensures
            final(pwm).hal_calls() == old(pwm).hal_calls() + note_pwm(*self, 60) + note_pwm(*self, 80) + note_pwm(*self, 90) + silence_pwm(*self),
            final(phase).hal_calls() == old(phase).hal_calls().push(HalCall::ComStep(1)).push(HalCall::ComStep(1)).push(HalCall::ComStep(1)).push(HalCall::AllOff),
            final(sys).hal_calls() == (old(sys).hal_calls().push(HalCall::DisableIrq) + note_system(75) + note_system(75) + note_system(75)).push(HalCall::EnableIrq),
    {
        sys.disable_irq();
        self.play_note(pwm, phase, sys, 60, 1, 75);
        self.play_note(pwm, phase, sys, 80, 1, 75);
        self.play_note(pwm, phase, sys, 90, 1, 75);
        self.silence(pwm, phase);
        sys.enable_irq();
    }

    /// Default settings tone.
    pub fn play_default<P: PwmOutput, Q: PhaseOutput, S: System>(&self, pwm: &mut P, phase: &mut Q, sys: &mut S)
        ensures
            final(pwm).hal_calls() == old(pwm).hal_calls() + note_pwm(*self, 50) + note_pwm(*self, 30) + silence_pwm(*self),
            final(phase).hal_calls() == old(phase).hal_calls().push(HalCall::ComStep(2)).push(HalCall::ComStep(2)).push(HalCall::AllOff),
            final(sys).hal_calls() == old(sys).hal_calls() + note_system(150) + note_system(150),
    {
        self.play_note(pwm, phase, sys, 50, 2, 150);
        self.play_note(pwm, phase, sys, 30, 2, 150);
        self.silence(pwm, phase);
    }

    /// Settings changed tone (the default tone reversed).
    pub fn play_changed<P: PwmOutput, Q: PhaseOutput, S: System>(&self, pwm: &mut P, phase: &mut Q, sys: &mut S)
        ensures
            final(pwm).hal_calls() == old(pwm).hal_calls() + note_pwm(*self, 40) + note_pwm(*self, 80) + silence_pwm(*self),
            final(phase).hal_calls() == old(phase).hal_calls().push(HalCall::ComStep(2)).push(HalCall::ComStep(2)).push(HalCall::AllOff),
            final(sys).hal_calls() == old(sys).hal_calls() + note_system(150) + note_system(150),
    {
        self.play_note(pwm, phase, sys, 40, 2, 150);
        self.play_note(pwm, phase, sys, 80, 2, 150);
        self.silence(pwm, phase);
    }

    /// Beacon tune: a frequency sweep of 60 short notes.
    pub fn play_beacon<P: PwmOutput, Q: PhaseOutput, S: System>(&self, pwm: &mut P, phase: &mut Q, sys: &mut S)
        ensures
            final(pwm).hal_calls() == old(pwm).hal_calls() + beacon_pwm(*self, 60) + silence_pwm(*self),
            final(phase).hal_calls() == old(phase).hal_calls() + beacon_phase(60) + seq![HalCall::AllOff],
            final(sys).hal_calls() == (old(sys).hal_calls().push(HalCall::DisableIrq) + beacon_system(60)).push(HalCall::EnableIrq),
    {
        sys.disable_irq();
        let ghost p0 = pwm.hal_calls();
        let ghost q0 = phase.hal_calls();
        let ghost y0 = sys.hal_calls();
        let ghost mut k: nat = 0;
        let mut i: i16 = 119;
        assert(p0 + beacon_pwm(*self, 0) =~= p0);
        assert(q0 + beacon_phase(0) =~= q0);
        assert(y0 + beacon_system(0) =~= y0);
        while i > 0
            invariant
                -1 <= i <= 119,
                i == beacon_i(k as int),
                pwm.hal_calls() == p0 + beacon_pwm(*self, k),
                phase.hal_calls() == q0 + beacon_phase(k),
                sys.hal_calls() == y0 + beacon_system(k),
            decreases i + 1,
        {
            sys.reload_watchdog();
            let step = (i / 20) as u8;
            let psc = 10 + (i / 2) as u16;
            self.play_note(pwm, phase, sys, psc, step, 10);
            proof {
                assert(beacon_pwm(*self, k + 1) == beacon_pwm(*self, k) + note_pwm(*self, psc));
                assert(pwm.hal_calls() =~= p0 + beacon_pwm(*self, k + 1));
                assert(phase.hal_calls() =~= q0 + beacon_phase(k + 1));
                assert(beacon_system(k + 1) == beacon_system(k).push(HalCall::ReloadWatchdog) + note_system(10));
                assert(sys.hal_calls() =~= y0 + beacon_system(k + 1));
                k = k + 1;
            }
            i -= 2;
        }
        assert(k == 60);
        self.silence(pwm, phase);
        sys.enable_irq();
        assert(phase.hal_calls() =~= old(phase).hal_calls() + beacon_phase(60) + seq![HalCall::AllOff]);
    }

    /// Brushed motor startup tune: four ascending tones.
    pub fn play_brushed_startup<P: PwmOutput, Q: PhaseOutput, S: System>(&self, pwm: &mut P, phase: &mut Q, sys: &mut S)
        ensures
            final(pwm).hal_calls() == old(pwm).hal_calls() + note_pwm(*self, 40) + note_pwm(*self, 30) + note_pwm(*self, 25) + note_pwm(*self, 20) + silence_pwm(*self),
            final(phase).hal_calls() == old(phase).hal_calls().push(HalCall::ComStep(1)).push(HalCall::ComStep(2)).push(HalCall::ComStep(3)).push(HalCall::ComStep(4)).push(HalCall::AllOff),
            final(sys).hal_calls() == (old(sys).hal_calls().push(HalCall::DisableIrq) + note_system(300) + note_system(300) + note_system(300) + note_system(300)).push(HalCall::EnableIrq),
    {
        sys.disable_irq();
        self.play_note(pwm, phase, sys, 40, 1, 300);
        self.play_note(pwm, phase, sys, 30, 2, 300);
        self.play_note(pwm, phase, sys, 25, 3, 300);
        self.play_note(pwm, phase, sys, 20, 4, 300);
        self.silence(pwm, phase);
        sys.enable_irq();
    }

    /// "Dusking" tune: a descending then ascending melody.
    pub fn play_dusking<P: PwmOutput, Q: PhaseOutput, S: System>(&self, pwm: &mut P, phase: &mut Q, sys: &mut S)
        ensures
            final(pwm).hal_calls() == old(pwm).hal_calls() + note_pwm(*self, 60) + note_pwm(*self, 55) + note_pwm(*self, 50) + note_pwm(*self, 45) + note_pwm(*self, 50) + note_pwm(*self, 55) + note_pwm(*self, 25) + note_pwm(*self, 55) + silence_pwm(*self),
            final(phase).hal_calls() == old(phase).hal_calls().push(HalCall::ComStep(2)).push(HalCall::ComStep(2)).push(HalCall::ComStep(2)).push(HalCall::ComStep(2)).push(HalCall::ComStep(2)).push(HalCall::ComStep(2)).push(HalCall::ComStep(2)).push(HalCall::ComStep(2)).push(HalCall::AllOff),
            final(sys).hal_calls() == old(sys).hal_calls() + note_system(200) + note_system(150) + note_system(150) + note_system(100) + note_system(100) + note_system(100) + note_system(200) + note_system(150),
    {
        self.play_note(pwm, phase, sys, 60, 2, 200);
        self.play_note(pwm, phase, sys, 55, 2, 150);
        self.play_note(pwm, phase, sys, 50, 2, 150);
        self.play_note(pwm, phase, sys, 45, 2, 100);
        self.play_note(pwm, phase, sys, 50, 2, 100);
        self.play_note(pwm, phase, sys, 55, 2, 100);
        self.play_note(pwm, phase, sys, 25, 2, 200);
        self.play_note(pwm, phase, sys, 55, 2, 150);
        self.silence(pwm, phase);
    }

    /// The auto-reload and duty a tone at `freq_hz` uses.
    pub fn note_timing(&self, freq_hz: u16, cpu_mhz: u32) -> (r: (u16, u16))
        requires
            freq_hz > 0,
            self.tim1_autoreload > 0,
            cpu_mhz * 100000 <= u32::MAX,
        ensures
            r.0 == note_reload(freq_hz, cpu_mhz),
            r.1 == note_duty(self.volume, r.0, self.tim1_autoreload),
    {
        let reload = (cpu_mhz * 100000 / freq_hz as u32) as u16;
        assert(self.volume as u32 * reload as u32 <= 255 * 65535) by (nonlinear_arith)
            requires self.volume <= 255, reload <= 65535;
        let scaled_vol = self.volume as u32 * reload as u32 / self.tim1_autoreload as u32;
        (reload, scaled_vol as u16)
    }

    /// Play a note at a given frequency and duration (prescaler 9, phase step 3).
    pub fn play_note_freq<P: PwmOutput, Q: PhaseOutput, S: System>(
        &self,
        pwm: &mut P,
        phase: &mut Q,
        sys: &mut S,
        freq_hz: u16,
        duration_ms: u16,
        cpu_mhz: u32,
    )
        requires
            freq_hz > 0,
            self.tim1_autoreload > 0,
            cpu_mhz * 100000 <= u32::MAX,
        ensures
            final(pwm).hal_calls() == old(pwm).hal_calls() + seq![
                HalCall::Prescaler(9),
                HalCall::AutoReload(note_reload(freq_hz, cpu_mhz)),
                HalCall::DutyAll(note_duty(self.volume, note_reload(freq_hz, cpu_mhz), self.tim1_autoreload)),
            ],
            final(phase).hal_calls() == old(phase).hal_calls().push(HalCall::ComStep(3)),
            final(sys).hal_calls() == old(sys).hal_calls().push(HalCall::DelayMillis(duration_ms as u32)),
    {
        let prescaler = 9u16;
        let (reload, duty) = self.note_timing(freq_hz, cpu_mhz);
        pwm.set_prescaler(prescaler);
        pwm.set_auto_reload(reload);
        pwm.set_duty_all(duty);
        phase.com_step(3);
        sys.delay_millis(duration_ms as u32);
        assert(pwm.hal_calls() =~= old(pwm).hal_calls() + seq![
            HalCall::Prescaler(9),
            HalCall::AutoReload(note_reload(freq_hz, cpu_mhz)),
            HalCall::DutyAll(note_duty(self.volume, note_reload(freq_hz, cpu_mhz), self.tim1_autoreload)),
        ]);
    }
}

} // verus!
