//! Current smoothing: a moving average over the last 50 readings.
use vstd::prelude::*;

verus! {

pub const NUM_READINGS: usize = 50;

/// Sum of a sequence of readings.
pub open spec fn sum_readings(s: Seq<u16>) -> int
    decreases s.len(),
{
    if s.len() == 0 {
        0
    } else {
        sum_readings(s.drop_last()) + s.last()
    }
}

proof fn lemma_sum_bounds(s: Seq<u16>)
    ensures
        0 <= sum_readings(s) <= s.len() * 65535,
    decreases s.len(),
{
    if s.len() > 0 {
        lemma_sum_bounds(s.drop_last());
    }
}

proof fn lemma_sum_update(s: Seq<u16>, i: int, v: u16)
    requires
        0 <= i < s.len(),
    ensures
        sum_readings(s.update(i, v)) == sum_readings(s) - s[i] + v,
        s[i] <= sum_readings(s),
    decreases s.len(),
{
    lemma_sum_bounds(s);
    if i == s.len() - 1 {
        assert(s.update(i, v).drop_last() =~= s.drop_last());
        lemma_sum_bounds(s.drop_last());
    } else {
        assert(s.update(i, v).drop_last() =~= s.drop_last().update(i, v));
        lemma_sum_update(s.drop_last(), i, v);
    }
}

proof fn lemma_sum_zeros(n: nat)
    ensures
        sum_readings(Seq::new(n, |i: int| 0u16)) == 0,
    decreases n,
{
    if n > 0 {
        assert(Seq::new(n, |i: int| 0u16).drop_last() =~= Seq::new((n - 1) as nat, |i: int| 0u16));
        lemma_sum_zeros((n - 1) as nat);
    }
}

/// Moving-average filter state.
pub struct CurrentFilter {
    pub readings: [u16; 50],
    pub index: usize,
    pub total: u32,
}

impl CurrentFilter {
    /// The write position is in range and the running total is the sum of the readings.
    pub open spec fn wf(&self) -> bool {
        &&& self.index < NUM_READINGS
        &&& self.total == sum_readings(self.readings@)
    }

    pub fn new() -> (r: Self)
        ensures
            r.wf(),
            r.index == 0,
            r.total == 0,
            r.readings@ == Seq::new(50, |i: int| 0u16),
    {
        let r = Self { readings: [0u16; 50], index: 0, total: 0 };
        assert(r.readings@ =~= Seq::new(50, |i: int| 0u16));
        proof {
            lemma_sum_zeros(50);
        }
        r
    }

    /// Feed a new raw ADC current reading; returns the average of the last 50 readings.
    pub fn update(&mut self, raw: u16) -> (r: u16)
        requires
            old(self).wf(),
        ensures
            final(self).wf(),
            final(self).readings@ == old(self).readings@.update(old(self).index as int, raw),
            final(self).index == (old(self).index + 1) % (NUM_READINGS as int),
            r == final(self).total / 50,
            r as int == sum_readings(final(self).readings@) / 50,
    {
        proof {
            lemma_sum_update(self.readings@, self.index as int, raw);
            lemma_sum_bounds(self.readings@.update(self.index as int, raw));
        }
        self.total = self.total - self.readings[self.index] as u32;
        self.readings[self.index] = raw;
        self.total = self.total + raw as u32;
        self.index = self.index + 1;
        if self.index >= NUM_READINGS {
            self.index = 0;
        }
        (self.total / 50) as u16
    }

    pub fn reset(&mut self)
        ensures
            final(self).wf(),
            final(self).index == 0,
            final(self).total == 0,
            final(self).readings@ == Seq::new(50, |i: int| 0u16),
    {
        self.readings = [0u16; 50];
        self.index = 0;
        self.total = 0;
        assert(self.readings@ =~= Seq::new(50, |i: int| 0u16));
        proof {
            lemma_sum_zeros(50);
        }
    }
}

/// Feeding the same reading 50 times into a filter whose readings are all equal
/// to it keeps the output at that reading (the average of a constant is the constant).
pub proof fn lemma_constant_average(v: u16)
    ensures
        sum_readings(Seq::new(50, |i: int| v)) / 50 == v,
{
    lemma_sum_const(v, 50);
    assert(50nat * (v as nat) == 50 * (v as int));
    vstd::arithmetic::div_mod::lemma_div_multiples_vanish(v as int, 50);
}

proof fn lemma_sum_const(v: u16, n: nat)
    ensures
        sum_readings(Seq::new(n, |i: int| v)) == n * v,
    decreases n,
{
    if n > 0 {
        assert(Seq::new(n, |i: int| v).drop_last() =~= Seq::new((n - 1) as nat, |i: int| v));
        lemma_sum_const(v, (n - 1) as nat);
        let m: int = n - 1;
        assert(n * v == m * v + v) by (nonlinear_arith) requires m == n - 1;
        assert(Seq::new(n, |i: int| v).last() == v);
    } else {
        assert(n * v == 0) by (nonlinear_arith) requires n == 0;
    }
}

impl Default for CurrentFilter {
    fn default() -> (r: Self)
        ensures
            r.wf(),
            r.index == 0,
            r.total == 0,
    {
        Self::new()
    }
}

} // verus!
