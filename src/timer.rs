use vstd::prelude::*;

verus! {

/// A countdown that loses one unit at 60 Hz, driven by calls made at a rate
/// the caller states.
///
/// Each call adds a sixtieth of a second's worth of calls, scaled by 60 to
/// stay whole: 60 to `pending`. A unit is complete when `pending` reaches
/// the calls per second; what is left over carries on to the next unit.
pub struct Timer {
    pub start_val: u8,
    pub current_val: u8,
    /// Progress towards the next unit, in sixtieths of a call.
    pub pending: u128,
}

/// The state of a [`Timer`] as the contracts see it.
pub struct TimerState {
    pub start_val: u8,
    pub current_val: u8,
    /// Progress towards the next unit, in sixtieths of a call.
    pub pending: nat,
}

/// The progress after one more call, given `pending` before it.
pub open spec fn next_pending(pending: nat) -> nat {
    if pending + 60 <= u128::MAX {
        pending + 60
    } else {
        u128::MAX as nat
    }
}

/// What one call of `tick(tick_rate)` makes of a timer in state `t`: the
/// call adds its sixtieth of a second's worth; when a running timer has
/// gathered a whole sixtieth of a second (`tick_rate` sixtieths of a call),
/// it loses one unit and keeps the remainder.
pub open spec fn ticked(t: TimerState, tick_rate: u64) -> TimerState {
    let p = next_pending(t.pending);
    if t.current_val > 0 && p >= tick_rate {
        TimerState {
            start_val: t.start_val,
            current_val: (t.current_val - 1) as u8,
            pending: (p - tick_rate) as nat,
        }
    } else {
        TimerState { start_val: t.start_val, current_val: t.current_val, pending: p }
    }
}

/// The state of a timer just set to `val`.
pub open spec fn set_to(val: u8) -> TimerState {
    TimerState { start_val: val, current_val: val, pending: 0 }
}

impl View for Timer {
    type V = TimerState;

    open spec fn view(&self) -> TimerState {
        TimerState {
            start_val: self.start_val,
            current_val: self.current_val,
            pending: self.pending as nat,
        }
    }
}

impl Timer {
    pub fn new() -> (r: Timer)
        ensures
            r@ == set_to(0),
    {
        Timer { start_val: 0, current_val: 0, pending: 0 }
    }

    /// Starts the countdown from `val`.
    pub fn set(&mut self, val: u8)
        ensures
            final(self)@ == set_to(val),
    {
        self.start_val = val;
        self.current_val = val;
        self.pending = 0;
    }

    /// Counts one call made at `tick_rate` calls per second and returns the
    /// value of the timer after it.
    pub fn tick(&mut self, tick_rate: u64) -> (r: u8)
        ensures
            final(self)@ == ticked(old(self)@, tick_rate),
            r == final(self)@.current_val,
    {
        if self.pending <= u128::MAX - 60 {
            self.pending = self.pending + 60;
        } else {
            self.pending = u128::MAX;
        }
        if self.current_val > 0 && self.pending >= tick_rate as u128 {
            self.current_val = self.current_val - 1;
            self.pending = self.pending - tick_rate as u128;
        }
        self.current_val
    }
}

/// The state of a timer in state `t` after `n` calls of `tick(tick_rate)`.
pub open spec fn ticked_times(t: TimerState, tick_rate: u64, n: nat) -> TimerState
    decreases n,
{
    if n == 0 {
        t
    } else {
        ticked(ticked_times(t, tick_rate, (n - 1) as nat), tick_rate)
    }
}

/// The whole sixtieths of a second that `n` calls at `tick_rate` calls per
/// second span.
pub open spec fn units_in(tick_rate: u64, n: nat) -> nat {
    (60 * n / (tick_rate as nat)) as nat
}

proof fn lemma_runs_down_from(v: u8, tick_rate: u64, n: nat)
    requires
        tick_rate >= 60,
    ensures
        units_in(tick_rate, n) <= v ==> ticked_times(set_to(v), tick_rate, n) == (TimerState {
            start_val: v,
            current_val: (v - units_in(tick_rate, n)) as u8,
            pending: (60 * n) % (tick_rate as nat),
        }),
        units_in(tick_rate, n) > v ==> ticked_times(set_to(v), tick_rate, n).current_val == 0,
    decreases n,
{
    let r = tick_rate as nat;
    if n == 0 {
        assert(60 * 0nat / r == 0 && (60 * 0nat) % r == 0) by (nonlinear_arith)
            requires
                r >= 60,
        ;
    } else {
        let k = (n - 1) as nat;
        lemma_runs_down_from(v, tick_rate, k);
        let q = 60 * k / r;
        let m = (60 * k) % r;
        assert(60 * k == q * r + m && 0 <= m < r) by (nonlinear_arith)
            requires
                r >= 60,
                q == 60 * k / r,
                m == (60 * k) % r,
        ;
        let qn = 60 * n / r;
        let mn = (60 * n) % r;
        if m + 60 >= r {
            assert(qn == q + 1 && mn == m + 60 - r) by (nonlinear_arith)
                requires
                    r >= 60,
                    60 * n == q * r + m + 60,
                    m + 60 >= r,
                    m < r,
                    qn == 60 * n / r,
                    mn == (60 * n) % r,
            ;
        } else {
            assert(qn == q && mn == m + 60) by (nonlinear_arith)
                requires
                    r >= 60,
                    60 * n == q * r + m + 60,
                    m + 60 < r,
                    0 <= m,
                    qn == 60 * n / r,
                    mn == (60 * n) % r,
            ;
        }
    }
}

/// A timer set to `v` and ticked at `tick_rate` calls per second (at least
/// 60, so that a call never spans more than one unit) loses one unit per
/// sixtieth of a second of calls: after `n` calls it shows `v` less the
/// whole sixtieths of a second the calls span, and zero once that reaches
/// `v`.
pub proof fn lemma_timer_runs_down(v: u8, tick_rate: u64, n: nat)
    requires
        tick_rate >= 60,
    ensures
        ticked_times(set_to(v), tick_rate, n).current_val == if units_in(tick_rate, n) < v {
            v - units_in(tick_rate, n)
        } else {
            0
        },
{
    lemma_runs_down_from(v, tick_rate, n);
}

} // verus!
