//! Sinusoidal startup: phase position advancement.
use vstd::prelude::*;

verus! {

/// Phase positions for sinusoidal drive (0-359 degrees).
#[derive(Clone, Copy, Default)]
pub struct PhasePositions {
    pub a: i16,
    pub b: i16,
    pub c: i16,
}

/// One step back: down by one, 359 below 0.
pub open spec fn step_down(v: i16) -> i16 {
    if v - 1 < 0 { 359 } else { (v - 1) as i16 }
}

/// One step up: up by one, 0 above 359.
pub open spec fn step_up(v: i16) -> i16 {
    if v + 1 > 359 { 0 } else { (v + 1) as i16 }
}

pub open spec fn advance_spec(p: PhasePositions, forward: bool) -> PhasePositions {
    if forward {
        PhasePositions { a: step_down(p.a), b: step_down(p.b), c: step_down(p.c) }
    } else {
        PhasePositions { a: step_up(p.a), b: step_up(p.b), c: step_up(p.c) }
    }
}

impl PhasePositions {
    /// Whether every position is an angle in 0..=359.
    pub open spec fn wf(&self) -> bool {
        0 <= self.a <= 359 && 0 <= self.b <= 359 && 0 <= self.c <= 359
    }

    /// Advance the phase positions one step: forward decrements, reverse increments,
    /// wrapping within 0..=359.
    pub fn advance(&mut self, forward: bool)
        requires
            forward ==> old(self).a > i16::MIN && old(self).b > i16::MIN && old(self).c > i16::MIN,
            !forward ==> old(self).a < i16::MAX && old(self).b < i16::MAX && old(self).c < i16::MAX,
        ensures
            *final(self) == advance_spec(*old(self), forward),
    {
        if !forward {
            self.a += 1;
            if self.a > 359 {
                self.a = 0;
            }
            self.b += 1;
            if self.b > 359 {
                self.b = 0;
            }
            self.c += 1;
            if self.c > 359 {
                self.c = 0;
            }
        } else {
            self.a -= 1;
            if self.a < 0 {
                self.a = 359;
            }
            self.b -= 1;
            if self.b < 0 {
                self.b = 359;
            }
            self.c -= 1;
            if self.c < 0 {
                self.c = 359;
            }
        }
    }
}

/// Advancing keeps the positions within 0..=359, and a step one way undoes a step
/// the other way.
pub proof fn lemma_advance_roundtrip(p: PhasePositions, forward: bool)
    requires
        p.wf(),
    ensures
        advance_spec(p, forward).wf(),
        advance_spec(advance_spec(p, forward), !forward) == p,
{
}

/// Each step keeps the phase differences between the three outputs (modulo 360).
pub proof fn lemma_advance_keeps_offsets(p: PhasePositions, forward: bool)
    requires
        p.wf(),
    ensures
        ({
            let q = advance_spec(p, forward);
            &&& (q.b - q.a) % 360 == (p.b - p.a) % 360
            &&& (q.c - q.a) % 360 == (p.c - p.a) % 360
        }),
{
}

} // verus!
