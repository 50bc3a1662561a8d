//! Acceleration of the rotary encoder: quick turns move further per detent.
use vstd::prelude::*;

verus! {

/// Clamps `v` to `[lo, hi]`.
pub open spec fn clamp_int(v: int, lo: int, hi: int) -> int {
    if v < lo { lo } else if v > hi { hi } else { v }
}

/// The acceleration factor for a turn that came `delta_ms` after the previous one: 1 when
/// acceleration is off (`sensitivity == 0`), else `(120 - min(delta, 120))^2 * sensitivity / 1000`
/// clamped to `[1, 100]`.
pub open spec fn spec_accel(delta_ms: u64, sensitivity: u8) -> i16 {
    if sensitivity == 0 {
        1
    } else {
        let q = 120 - (if delta_ms < 120 { delta_ms as int } else { 120 });
        clamp_int(q * q * sensitivity / 1000, 1, 100) as i16
    }
}

/// The acceleration factor for a turn `delta_ms` after the previous one.
pub fn accel_multiplier(delta_ms: u64, sensitivity: u8) -> (m: i16)
    ensures
        m == spec_accel(delta_ms, sensitivity),
        1 <= m <= 100,
{
    if sensitivity == 0 {
        return 1;
    }
    let capped: u64 = if delta_ms < 120 { delta_ms } else { 120 };
    let q: u64 = 120 - capped;
    assert(q * q <= 120 * 120) by (nonlinear_arith)
        requires
            q <= 120,
    ;
    assert(q * q * (sensitivity as u64) <= 120 * 120 * 255) by (nonlinear_arith)
        requires
            q <= 120,
            sensitivity <= 255,
    ;
    let v: u64 = q * q * (sensitivity as u64) / 1000;
    let c: u64 = if v < 1 { 1 } else if v > 100 { 100 } else { v };
    c as i16
}

/// `d * m`, saturating at the bounds of `i16`.
pub open spec fn spec_sat_mul_i16(d: i16, m: i16) -> i16 {
    clamp_int(d * m, i16::MIN as int, i16::MAX as int) as i16
}

/// The counted detents `d` scaled by the acceleration factor `m`, saturating.
pub fn accelerated_delta(d: i16, m: i16) -> (r: i16)
    ensures
        r == spec_sat_mul_i16(d, m),
{
    let a = d as i32;
    let b = m as i32;
    assert(-32768 * 32768 <= a * b <= 32768 * 32768) by (nonlinear_arith)
        requires
            -32768 <= a <= 32767,
            -32768 <= b <= 32767,
    ;
    let p: i32 = a * b;
    if p < -32768 {
        -32768
    } else if p > 32767 {
        32767
    } else {
        p as i16
    }
}

/// With acceleration off a turn moves exactly as far as the encoder counted.
pub proof fn lemma_no_accel_is_identity(d: i16)
    ensures
        spec_sat_mul_i16(d, spec_accel(0, 0)) == d,
{
}

/// Acceleration never turns a step around nor loses it: a clockwise count stays positive, a
/// counter-clockwise one negative, and the scaled count is at least as large as the counted one.
pub proof fn lemma_accel_keeps_direction(d: i16, delta_ms: u64, sensitivity: u8)
    ensures
        ({
            let r = spec_sat_mul_i16(d, spec_accel(delta_ms, sensitivity));
            &&& d > 0 ==> d <= r
            &&& d < 0 ==> r <= d
            &&& d == 0 ==> r == 0
        }),
{
    let m = spec_accel(delta_ms, sensitivity);
    if sensitivity != 0 {
        let q = 120 - (if delta_ms < 120 { delta_ms as int } else { 120 });
        assert(q * q * sensitivity / 1000 >= 0) by (nonlinear_arith)
            requires
                q >= 0,
                sensitivity >= 0,
        ;
    }
    assert(1 <= m <= 100);
    assert(d > 0 ==> d * m >= d) by (nonlinear_arith)
        requires
            1 <= m,
    ;
    assert(d < 0 ==> d * m <= d) by (nonlinear_arith)
        requires
            1 <= m,
    ;
    assert(d == 0 ==> d * m == 0) by (nonlinear_arith);
}

} // verus!
