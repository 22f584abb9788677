//! Integer PID controller.
use vstd::prelude::*;

verus! {

#[derive(Clone, Copy)]
pub struct Pid {
    pub error: i32,
    pub kp: u32,
    pub ki: u32,
    pub kd: u32,
    pub integral: i32,
    pub derivative: i32,
    pub last_error: i32,
    pub pid_output: i32,
    pub integral_limit: i32,
    pub output_limit: i32,
}

pub open spec fn clamp_sym(v: int, limit: int) -> int {
    if v > limit {
        limit
    } else if v < -limit {
        -limit
    } else {
        v
    }
}

/// The `i32` reinterpretation of a `u32` gain.
pub open spec fn gain(k: u32) -> int {
    (k as i32) as int
}

pub open spec fn fits_i32(v: int) -> bool {
    i32::MIN <= v <= i32::MAX
}

/// One PID iteration on a controller state: error, clamped integral, derivative and
/// clamped output.
pub open spec fn pid_error(actual: i32, target: i32) -> int {
    actual - target
}

pub open spec fn pid_integral(p: Pid, actual: i32, target: i32) -> int {
    let i = p.integral + pid_error(actual, target) * gain(p.ki);
    let i1 = if i > p.integral_limit { p.integral_limit as int } else { i };
    if i1 < -p.integral_limit { -p.integral_limit } else { i1 }
}

pub open spec fn pid_derivative(p: Pid, actual: i32, target: i32) -> int {
    gain(p.kd) * (pid_error(actual, target) - p.last_error)
}

pub open spec fn pid_raw_output(p: Pid, actual: i32, target: i32) -> int {
    pid_error(actual, target) * gain(p.kp) + pid_integral(p, actual, target) + pid_derivative(p, actual, target)
}

pub open spec fn pid_output(p: Pid, actual: i32, target: i32) -> int {
    let o = pid_raw_output(p, actual, target);
    let o1 = if o > p.output_limit { p.output_limit as int } else { o };
    if o1 < -p.output_limit { -p.output_limit } else { o1 }
}

/// No intermediate of one iteration overflows an `i32`: the calculation is only defined where none does.
pub open spec fn pid_calc_ok(p: Pid, actual: i32, target: i32) -> bool {
    let e = pid_error(actual, target);
    &&& fits_i32(e)
    &&& fits_i32(e * gain(p.ki))
    &&& fits_i32(p.integral + e * gain(p.ki))
    &&& p.integral_limit > i32::MIN
    &&& p.output_limit > i32::MIN
    &&& fits_i32(e - p.last_error)
    &&& fits_i32(pid_derivative(p, actual, target))
    &&& fits_i32(e * gain(p.kp))
    &&& fits_i32(e * gain(p.kp) + pid_integral(p, actual, target))
    &&& fits_i32(pid_raw_output(p, actual, target))
}

/// The controller state after one iteration.
pub open spec fn pid_step(p: Pid, actual: i32, target: i32) -> Pid {
    Pid {
        error: pid_error(actual, target) as i32,
        integral: pid_integral(p, actual, target) as i32,
        derivative: pid_derivative(p, actual, target) as i32,
        last_error: pid_error(actual, target) as i32,
        pid_output: pid_output(p, actual, target) as i32,
        ..p
    }
}

impl Pid {
    pub fn new(kp: u32, ki: u32, kd: u32, integral_limit: i32, output_limit: i32) -> (r: Self)
        ensures
            r.kp == kp,
            r.ki == ki,
            r.kd == kd,
            r.integral_limit == integral_limit,
            r.output_limit == output_limit,
            r.error == 0,
            r.integral == 0,
            r.derivative == 0,
            r.last_error == 0,
            r.pid_output == 0,
    {
        Self {
            error: 0,
            kp,
            ki,
            kd,
            integral: 0,
            derivative: 0,
            last_error: 0,
            pid_output: 0,
            integral_limit,
            output_limit,
        }
    }

    /// Compute one PID iteration. Returns the clamped output.
    pub fn calculate(&mut self, actual: i32, target: i32) -> (r: i32)
        requires
            pid_calc_ok(*old(self), actual, target),
        ensures
            *final(self) == pid_step(*old(self), actual, target),
            r == final(self).pid_output,
    {
        self.error = actual - target;
        self.integral = self.integral + self.error * (self.ki as i32);
        if self.integral > self.integral_limit {
            self.integral = self.integral_limit;
        }
        if self.integral < -self.integral_limit {
            self.integral = -self.integral_limit;
        }
        self.derivative = (self.kd as i32) * (self.error - self.last_error);
        self.last_error = self.error;
        self.pid_output = self.error * (self.kp as i32) + self.integral + self.derivative;
        if self.pid_output > self.output_limit {
            self.pid_output = self.output_limit;
        }
        if self.pid_output < -self.output_limit {
            self.pid_output = -self.output_limit;
        }
        self.pid_output
    }

    /// Update PID gains and reset accumulated state.
    pub fn set_gains(&mut self, kp: u32, ki: u32, kd: u32)
        ensures
            *final(self) == (Pid { kp, ki, kd, error: 0, integral: 0, derivative: 0, last_error: 0, pid_output: 0, ..*old(self) }),
    {
        self.kp = kp;
        self.ki = ki;
        self.kd = kd;
        self.reset();
    }

    pub fn reset(&mut self)
        ensures
            *final(self) == (Pid { error: 0, integral: 0, derivative: 0, last_error: 0, pid_output: 0, ..*old(self) }),
    {
        self.error = 0;
        self.integral = 0;
        self.derivative = 0;
        self.last_error = 0;
        self.pid_output = 0;
    }
}

impl Default for Pid {
    fn default() -> (r: Self)
        ensures
            r == Pid::new_spec(0, 0, 0, 0, 0),
    {
        Pid::new(0, 0, 0, 0, 0)
    }
}

impl Pid {
    pub open spec fn new_spec(kp: u32, ki: u32, kd: u32, integral_limit: i32, output_limit: i32) -> Pid {
        Pid { error: 0, kp, ki, kd, integral: 0, derivative: 0, last_error: 0, pid_output: 0, integral_limit, output_limit }
    }
}

/// With non-negative limits, the output never exceeds the output limit in magnitude
/// and the integral never exceeds the integral limit.
pub proof fn lemma_pid_bounded(p: Pid, actual: i32, target: i32)
    requires
        p.integral_limit >= 0,
        p.output_limit >= 0,
    ensures
        -p.output_limit <= pid_output(p, actual, target) <= p.output_limit,
        -p.integral_limit <= pid_integral(p, actual, target) <= p.integral_limit,
{
}

} // verus!
