//! Integer helpers shared by the control code: clamped linear
//! interpolation, absolute difference and the KISS CRC-8.
use vstd::prelude::*;

verus! {

/// Division truncating toward zero (the semantics of Rust's `/` on signed integers)
/// for a positive divisor.
pub open spec fn tdiv_pos(a: int, b: int) -> int {
    if a >= 0 { a / b } else { -((-a) / b) }
}

/// Division truncating toward zero for any non-zero divisor.
pub open spec fn tdiv(a: int, b: int) -> int {
    if b < 0 { tdiv_pos(-a, -b) } else { tdiv_pos(a, b) }
}

/// `x - y` wrapped into `u16`.
pub open spec fn wrap_sub_u16(x: u16, y: u16) -> u16 {
    if x - y < 0 { (x - y + 0x1_0000) as u16 } else { (x - y) as u16 }
}

/// `x - y`, or 0 when `y` exceeds `x`.
pub open spec fn sat_sub_u16(x: u16, y: u16) -> u16 {
    if x >= y { (x - y) as u16 } else { 0 }
}

pub open spec fn min_int(a: int, b: int) -> int {
    if a <= b { a } else { b }
}

pub open spec fn max_int(a: int, b: int) -> int {
    if a >= b { a } else { b }
}

/// `x` clamped into the closed interval spanned by `a` and `b` (in either order).
pub open spec fn clamp_between(x: int, a: int, b: int) -> int {
    if x < min_int(a, b) {
        min_int(a, b)
    } else if x > max_int(a, b) {
        max_int(a, b)
    } else {
        x
    }
}

/// The value of `map`: `x` clamped to the input interval, then carried linearly
/// from `[in_min, in_max]` onto `[out_min, out_max]`, the quotient truncated toward zero.
#[verifier::opaque]
pub open spec fn map_spec(x: int, in_min: int, in_max: int, out_min: int, out_max: int) -> int {
    if in_max == in_min {
        out_min
    } else {
        tdiv(
            (clamp_between(x, in_min, in_max) - in_min) * (out_max - out_min),
            in_max - in_min,
        ) + out_min
    }
}

/// What `map` asks of its arguments: both spans fit in an `i32`.
pub open spec fn map_args_ok(in_min: int, in_max: int, out_min: int, out_max: int) -> bool {
    &&& i32::MIN <= in_max - in_min <= i32::MAX
    &&& i32::MIN <= out_max - out_min <= i32::MAX
}

proof fn lemma_div_bounded(n: int, d: int, m: int)
    requires
        0 <= n <= d * m,
        d > 0,
        m >= 0,
    ensures
        0 <= n / d <= m,
{
    vstd::arithmetic::div_mod::lemma_div_is_ordered(n, d * m, d);
    vstd::arithmetic::div_mod::lemma_div_multiples_vanish(m, d);
    vstd::arithmetic::div_mod::lemma_div_pos_is_pos(n, d);
}

/// The truncated quotient of `t * o / d`, where `t` lies between 0 and `d`,
/// lies between 0 and `o`.
proof fn lemma_scaled_quotient(t: int, o: int, d: int)
    requires
        d != 0,
        (d > 0 ==> 0 <= t <= d),
        (d < 0 ==> d <= t <= 0),
    ensures
        min_int(0, o) <= tdiv(t * o, d) <= max_int(0, o),
{
    let at = if d > 0 { t } else { -t };
    let ad = if d > 0 { d } else { -d };
    let ao = if o >= 0 { o } else { -o };
    assert(0 <= at <= ad);
    assert(0 <= at * ao <= ad * ao) by (nonlinear_arith)
        requires 0 <= at <= ad, ao >= 0;
    assert(ad * ao == ao * ad) by (nonlinear_arith);
    lemma_div_bounded(at * ao, ad, ao);
    if d > 0 {
        if o >= 0 {
            assert(t * o == at * ao);
        } else {
            assert(t * o == -(at * ao)) by (nonlinear_arith) requires at == t, ao == -o;
        }
    } else {
        if o >= 0 {
            assert(-(t * o) == at * ao) by (nonlinear_arith) requires at == -t, ao == o;
        } else {
            assert(-(t * o) == -(at * ao)) by (nonlinear_arith) requires at == -t, ao == -o;
        }
    }
}

/// `map`'s value always lies between `out_min` and `out_max`.
pub proof fn lemma_map_in_output_range(x: int, in_min: int, in_max: int, out_min: int, out_max: int)
    ensures
        min_int(out_min, out_max) <= map_spec(x, in_min, in_max, out_min, out_max) <= max_int(
            out_min,
            out_max,
        ),
{
    reveal(map_spec);
    if in_max != in_min {
        let xc = clamp_between(x, in_min, in_max);
        lemma_scaled_quotient(xc - in_min, out_max - out_min, in_max - in_min);
    }
}

/// Over an increasing input interval `map` is monotone: non-decreasing onto an
/// increasing output interval, non-increasing onto a decreasing one.
pub proof fn lemma_map_monotone(x1: int, x2: int, in_min: int, in_max: int, out_min: int, out_max: int)
    requires
        in_min < in_max,
        x1 <= x2,
    ensures
        out_min <= out_max ==> map_spec(x1, in_min, in_max, out_min, out_max) <= map_spec(
            x2,
            in_min,
            in_max,
            out_min,
            out_max,
        ),
        out_min >= out_max ==> map_spec(x1, in_min, in_max, out_min, out_max) >= map_spec(
            x2,
            in_min,
            in_max,
            out_min,
            out_max,
        ),
{
    reveal(map_spec);
    let d = in_max - in_min;
    let t1 = clamp_between(x1, in_min, in_max) - in_min;
    let t2 = clamp_between(x2, in_min, in_max) - in_min;
    assert(0 <= t1 <= t2 <= d);
    let p = if out_max >= out_min { out_max - out_min } else { out_min - out_max };
    assert(0 <= t1 * p <= t2 * p) by (nonlinear_arith)
        requires 0 <= t1 <= t2, p >= 0;
    vstd::arithmetic::div_mod::lemma_div_is_ordered(t1 * p, t2 * p, d);
    vstd::arithmetic::div_mod::lemma_div_pos_is_pos(t1 * p, d);
    if out_max < out_min {
        assert(t1 * (out_max - out_min) == -(t1 * p)) by (nonlinear_arith)
            requires p == out_min - out_max;
        assert(t2 * (out_max - out_min) == -(t2 * p)) by (nonlinear_arith)
            requires p == out_min - out_max;
        assert(0int / d == 0) by (nonlinear_arith) requires d > 0;
        assert(tdiv(t1 * (out_max - out_min), d) == -((t1 * p) / d));
        assert(tdiv(t2 * (out_max - out_min), d) == -((t2 * p) / d));
    } else {
        assert(t1 * (out_max - out_min) == t1 * p);
        assert(t2 * (out_max - out_min) == t2 * p);
        if out_max == out_min {
            assert(t1 * p == 0 && t2 * p == 0) by (nonlinear_arith) requires p == 0;
        }
    }
}

/// `map` carries the ends of the input interval onto the ends of the output
/// interval.
pub proof fn lemma_map_endpoints(in_min: int, in_max: int, out_min: int, out_max: int)
    requires
        in_min < in_max,
    ensures
        map_spec(in_min, in_min, in_max, out_min, out_max) == out_min,
        map_spec(in_max, in_min, in_max, out_min, out_max) == out_max,
{
    reveal(map_spec);
    let d = in_max - in_min;
    let o = out_max - out_min;
    assert(clamp_between(in_min, in_min, in_max) == in_min);
    assert(clamp_between(in_max, in_min, in_max) == in_max);
    assert((in_min - in_min) * o == 0) by (nonlinear_arith);
    assert(0int / d == 0) by (nonlinear_arith) requires d > 0;
    assert(tdiv(0, d) == 0);
    if o >= 0 {
        vstd::arithmetic::div_mod::lemma_div_multiples_vanish(o, d);
    } else {
        vstd::arithmetic::div_mod::lemma_div_multiples_vanish(-o, d);
        assert(d * o == -(d * (-o))) by (nonlinear_arith);
    }
}

/// Linear interpolation with clamping: `x` is clamped to the interval spanned by
/// `in_min` and `in_max`, then carried onto `[out_min, out_max]`.
pub fn map(x: i32, in_min: i32, in_max: i32, out_min: i32, out_max: i32) -> (r: i32)
    requires
        map_args_ok(in_min as int, in_max as int, out_min as int, out_max as int),
    ensures
        r as int == map_spec(x as int, in_min as int, in_max as int, out_min as int, out_max as int),
        min_int(out_min as int, out_max as int) <= r <= max_int(out_min as int, out_max as int),
{
    proof {
        reveal(map_spec);
        lemma_map_in_output_range(x as int, in_min as int, in_max as int, out_min as int, out_max as int);
    }
    if in_max == in_min {
        return out_min;
    }
    let lo = if in_min <= in_max { in_min } else { in_max };
    let hi = if in_min <= in_max { in_max } else { in_min };
    let x = if x < lo {
        lo
    } else if x > hi {
        hi
    } else {
        x
    };
    let t = (x - in_min) as i64;
    let o = (out_max - out_min) as i64;
    let d = (in_max - in_min) as i64;
    assert(-0x8000_0000 <= t <= 0x8000_0000);
    assert(-0x8000_0000 <= o <= 0x8000_0000);
    assert(-0x4000_0000_0000_0000 <= t * o <= 0x4000_0000_0000_0000) by (nonlinear_arith)
        requires -0x8000_0000 <= t <= 0x8000_0000, -0x8000_0000 <= o <= 0x8000_0000;
    let mut num = t * o;
    let mut den = d;
    if den < 0 {
        num = -num;
        den = -den;
    }
    let q = num / den;
    (q + out_min as i64) as i32
}

/// Absolute difference of two integers.
pub fn get_abs_dif(a: i32, b: i32) -> (r: u32)
    requires
        i32::MIN <= a - b <= i32::MAX,
    ensures
        r as int == if a >= b { a - b } else { b - a },
{
    let d = a - b;
    if d >= 0 {
        d as u32
    } else {
        (-(d as i64)) as u32
    }
}

/// One shift of the KISS CRC-8 register (polynomial 0x07).
pub open spec fn crc8_shift(c: u8) -> u8 {
    if c & 0x80 != 0 {
        0x07 ^ (c << 1u8)
    } else {
        c << 1u8
    }
}

/// The register after `n` shifts.
pub open spec fn crc8_shifts(c: u8, n: nat) -> u8
    decreases n,
{
    if n == 0 {
        c
    } else {
        crc8_shift(crc8_shifts(c, (n - 1) as nat))
    }
}

/// The KISS CRC-8 of one more byte: eight shifts of `crc ^ seed`.
pub open spec fn update_crc8_spec(crc: u8, seed: u8) -> u8 {
    crc8_shifts(crc ^ seed, 8)
}

/// The KISS CRC-8 of a byte sequence, starting from 0.
pub open spec fn crc8_spec(s: Seq<u8>) -> u8
    decreases s.len(),
{
    if s.len() == 0 {
        0
    } else {
        update_crc8_spec(s.last(), crc8_spec(s.drop_last()))
    }
}

/// CRC-8 update (KISS telemetry polynomial).
pub fn update_crc8(crc: u8, seed: u8) -> (r: u8)
    ensures
        r == update_crc8_spec(crc, seed),
{
    let mut crc_u = crc ^ seed;
    let mut i: u8 = 0;
    while i < 8
        invariant
            i <= 8,
            crc_u == crc8_shifts(crc ^ seed, i as nat),
        decreases 8 - i,
    {
        crc_u = if crc_u & 0x80 != 0 {
            0x07 ^ (crc_u << 1u8)
        } else {
            crc_u << 1u8
        };
        i = i + 1;
    }
    crc_u
}

/// CRC-8 over a buffer.
pub fn get_crc8(buf: &[u8]) -> (r: u8)
    ensures
        r == crc8_spec(buf@),
{
    let mut crc: u8 = 0;
    let mut i: usize = 0;
    while i < buf.len()
        invariant
            i <= buf.len(),
            crc == crc8_spec(buf@.take(i as int)),
        decreases buf.len() - i,
    {
        assert(buf@.take(i as int + 1).drop_last() =~= buf@.take(i as int));
        crc = update_crc8(buf[i], crc);
        i = i + 1;
    }
    assert(buf@.take(buf.len() as int) =~= buf@);
    crc
}

proof fn lemma_xor_self(x: u8)
    ensures
        x ^ x == 0,
{
    assert(x ^ x == 0) by (bit_vector);
}

proof fn lemma_crc8_shifts_zero(n: nat)
    ensures
        crc8_shifts(0, n) == 0,
    decreases n,
{
    if n > 0 {
        lemma_crc8_shifts_zero((n - 1) as nat);
        assert(crc8_shift(0) == 0) by (bit_vector);
    }
}

/// A message followed by its own CRC-8 checks out: the CRC of the whole is 0.
pub proof fn lemma_crc8_appended_check(s: Seq<u8>)
    ensures
        crc8_spec(s.push(crc8_spec(s))) == 0,
{
    assert(s.push(crc8_spec(s)).drop_last() =~= s);
    lemma_xor_self(crc8_spec(s));
    lemma_crc8_shifts_zero(8);
}

} // verus!
