//! The real-time cycle engine's arithmetic: the first deadline, the
//! deadline-miss policy, and the PI controller that phase-aligns the host
//! loop to the EtherCAT reference clock.
//!
//! The controller works on the distributed-clock reading of the last
//! exchange. With cycle length `T`, it takes `delta = (reftime - 500000)
//! rem T`, folded into `(-T, T/2]`; the fixed 500 µs shift places the local
//! wake after the DC rollover. The time error `-delta` is integrated, and
//! the correction is `Kp * timeerror + Ki * integral` rounded to whole
//! nanoseconds, with `Kp = 1/100` and `Ki = 1/50000` computed exactly as
//! `(500 * timeerror + integral) / 50000`.

use vstd::prelude::*;

verus! {

/// The fixed phase shift between DC rollover and the local wake, in
/// nanoseconds.
pub const SYNC_PHASE_SHIFT_NS: i64 = 500000;

/// Upper bound on a cycle length the engine accepts: one day in
/// nanoseconds.
pub const MAX_CYCLE_NS: i64 = 86_400_000_000_000;

/// Bound on the accumulated time error under which the controller's
/// arithmetic cannot overflow.
pub const MAX_INTEGRAL: i64 = 0x2000_0000_0000_0000;

/// The remainder with the sign of the dividend, as the `%` of the
/// implementation language computes it.
pub open spec fn trunc_rem(a: int, c: int) -> int {
    if a >= 0 {
        a % c
    } else {
        -((-a) % c)
    }
}

/// The phase error of `reftime` against the cycle grid, folded so that a
/// late wake shows as a small positive value and an early one as a small
/// negative value.
pub open spec fn sync_delta(reftime: int, cycle: int) -> int {
    let d0 = trunc_rem(reftime - SYNC_PHASE_SHIFT_NS, cycle);
    if d0 > cycle / 2 {
        d0 - cycle
    } else {
        d0
    }
}

/// Integer division rounded to the nearest, ties away from zero.
pub open spec fn round_div(v: int, d: int) -> int {
    if v >= 0 {
        (v + d / 2) / d
    } else {
        -((-v + d / 2) / d)
    }
}

/// The correction the controller emits for one exchange.
pub open spec fn sync_toff(reftime: int, cycle: int, integral0: int) -> int {
    round_div(500 * -sync_delta(reftime, cycle) + integral0 - sync_delta(reftime, cycle), 50000)
}

/// One step of the PI controller: updates the time error and its integral,
/// and returns the signed correction to add to the next deadline.
pub fn ec_sync(reftime: i64, cycletime: i64, timeerror: &mut i64, integral: &mut i64) -> (toff:
    i64)
    requires
        0 < cycletime <= MAX_CYCLE_NS,
        -MAX_INTEGRAL <= *old(integral) <= MAX_INTEGRAL,
    ensures
        *final(timeerror) == -sync_delta(reftime as int, cycletime as int),
        *final(integral) == *old(integral) + *final(timeerror),
        toff == sync_toff(reftime as int, cycletime as int, *old(integral) as int),
{
    let a: i128 = reftime as i128 - SYNC_PHASE_SHIFT_NS as i128;
    let c: i128 = cycletime as i128;
    let r0: i128 = if a >= 0 {
        a % c
    } else {
        -((-a) % c)
    };
    let delta: i128 = if r0 > c / 2 {
        r0 - c
    } else {
        r0
    };
    let te: i128 = -delta;
    *timeerror = te as i64;
    let integ: i128 = *integral as i128 + te;
    *integral = integ as i64;
    let v: i128 = 500 * te + integ;
    let toff: i128 = if v >= 0 {
        (v + 25000) / 50000
    } else {
        -((-v + 25000) / 50000)
    };
    toff as i64
}

/// The magnitude of the folded phase error never exceeds the cycle length.
pub proof fn lemma_sync_delta_bound(reftime: int, cycle: int)
    requires
        0 < cycle,
    ensures
        -cycle < sync_delta(reftime, cycle) <= cycle / 2,
{
}

/// With no accumulated error, the controller is quiet on a perfectly phased
/// reference clock: when `reftime` is `500000` modulo the cycle, both the
/// time error and the correction are zero.
pub proof fn lemma_ec_sync_zero_in_phase(reftime: int, cycle: int)
    requires
        0 < cycle,
        trunc_rem(reftime - SYNC_PHASE_SHIFT_NS, cycle) == 0,
    ensures
        sync_delta(reftime, cycle) == 0,
        sync_toff(reftime, cycle, 0) == 0,
{
}

/// The correction is bounded by the gains applied to the cycle length and
/// the accumulated error: `|toff| <= round(Kp * T + Ki * |integral'|)`.
pub proof fn lemma_ec_sync_toff_bound(reftime: int, cycle: int, integral0: int)
    requires
        0 < cycle,
    ensures
        abs_of(sync_toff(reftime, cycle, integral0)) <= round_div(
            500 * cycle + abs_of(integral0 - sync_delta(reftime, cycle)),
            50000,
        ),
{
    let delta = sync_delta(reftime, cycle);
    let integ = integral0 - delta;
    let v = 500 * -delta + integ;
    lemma_sync_delta_bound(reftime, cycle);
    assert(abs_of(500 * -delta) <= 500 * cycle);
    assert(abs_of(v) <= 500 * cycle + abs_of(integ));
    lemma_round_div_monotone_abs(v, 500 * cycle + abs_of(integ), 50000);
}

/// The absolute value.
pub open spec fn abs_of(v: int) -> int {
    if v >= 0 {
        v
    } else {
        -v
    }
}

/// `round_div` grows with the magnitude of its dividend.
proof fn lemma_round_div_monotone_abs(v: int, bound: int, d: int)
    requires
        0 < d,
        abs_of(v) <= bound,
    ensures
        abs_of(round_div(v, d)) <= round_div(bound, d),
{
    if v >= 0 {
        vstd::arithmetic::div_mod::lemma_div_is_ordered(v + d / 2, bound + d / 2, d);
        vstd::arithmetic::div_mod::lemma_div_pos_is_pos(v + d / 2, d);
    } else {
        vstd::arithmetic::div_mod::lemma_div_is_ordered(-v + d / 2, bound + d / 2, d);
        vstd::arithmetic::div_mod::lemma_div_pos_is_pos(-v + d / 2, d);
    }
}

/// The first deadline of the cycle loop: the next integer multiple of the
/// cycle length in the UTC-nanosecond domain.
pub fn initial_deadline(now_unix_ns: i128, cycle_ns: i128) -> (ts: i128)
    requires
        0 < cycle_ns <= MAX_CYCLE_NS,
        0 <= now_unix_ns <= 0x1000_0000_0000_0000_0000_0000,
    ensures
        ts == (now_unix_ns / cycle_ns + 1) * cycle_ns,
        ts % cycle_ns == 0,
        now_unix_ns < ts <= now_unix_ns + cycle_ns,
{
    let q: i128 = now_unix_ns / cycle_ns;
    proof {
        let n = now_unix_ns as int;
        let c = cycle_ns as int;
        vstd::arithmetic::div_mod::lemma_fundamental_div_mod(n, c);
        vstd::arithmetic::div_mod::lemma_div_pos_is_pos(n, c);
        vstd::arithmetic::div_mod::lemma_mod_bound(n, c);
        assert(c * (n / c) == (n / c) * c) by (nonlinear_arith);
        assert((n / c + 1) * c == (n / c) * c + c) by (nonlinear_arith);
        assert((q as int + 1) * c == n - n % c + c);
    }
    let ts: i128 = (q + 1) * cycle_ns;
    proof {
        vstd::arithmetic::div_mod::lemma_mod_multiples_basic(q as int + 1, cycle_ns as int);
    }
    ts
}

/// One step of the deadline-miss policy: a timely wake clears the counter;
/// the thousandth consecutive miss asks for one warning and starts over.
pub fn update_miss_count(cnt: u32, missed: bool) -> (r: (u32, bool))
    requires
        cnt < 1000,
    ensures
        r.0 < 1000,
        !missed ==> r == (0u32, false),
        missed && cnt + 1 == 1000 ==> r == (0u32, true),
        missed && cnt + 1 < 1000 ==> r == ((cnt + 1) as u32, false),
{
    if !missed {
        (0, false)
    } else if cnt + 1 == 1000 {
        (0, true)
    } else {
        (cnt + 1, false)
    }
}

} // verus!
