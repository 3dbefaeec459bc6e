//! The clock behind automatic attacks: elapsed time is collected and handed
//! out again in whole intervals, never losing a remainder.
//!
//! Time is counted in whole units; a unit is a microsecond wherever a real
//! clock feeds this one.

use vstd::arithmetic::div_mod::{
    lemma_fundamental_div_mod,
    lemma_fundamental_div_mod_converse,
    lemma_mod_bound,
};
use vstd::prelude::*;

verus! {

/// Default interval between automatic attacks: 0.6 seconds, in microseconds.
pub const DEFAULT_TICK_INTERVAL: u64 = 600_000;

/// Mathematical model of [`SimulationClock`].
pub struct ClockModel {
    pub frame_time: nat,
    pub tick_interval: nat,
}

impl ClockModel {
    /// The time carried over is always less than one interval.
    pub open spec fn wf(self) -> bool {
        self.frame_time < self.tick_interval
    }

    /// Number of whole intervals that have elapsed once `dt` more units have
    /// passed.
    pub open spec fn due(self, dt: nat) -> nat {
        (self.frame_time + dt) / self.tick_interval
    }

    /// The clock after `dt` more units have passed and every whole interval
    /// was handed out.
    pub open spec fn advanced(self, dt: nat) -> ClockModel {
        ClockModel { frame_time: (self.frame_time + dt) % self.tick_interval, ..self }
    }
}

/// Advancing keeps the interval and leaves less than one interval behind.
pub proof fn lemma_advance_keeps_wf(c: ClockModel, dt: nat)
    requires
        c.tick_interval > 0,
    ensures
        c.advanced(dt).wf(),
        c.advanced(dt).tick_interval == c.tick_interval,
        c.due(dt) * c.tick_interval + c.advanced(dt).frame_time == c.frame_time + dt,
{
    let total = (c.frame_time + dt) as int;
    let interval = c.tick_interval as int;
    lemma_fundamental_div_mod(total, interval);
    lemma_mod_bound(total, interval);
    assert(interval * (total / interval) == (total / interval) * interval) by (nonlinear_arith);
}

/// Advancing by `a` and then by `b` hands out as many intervals, and leaves
/// the same remainder, as advancing by `a + b` at once.
pub proof fn lemma_advance_splits(c: ClockModel, a: nat, b: nat)
    requires
        c.tick_interval > 0,
    ensures
        c.advanced(a).advanced(b) == c.advanced(a + b),
        c.due(a) + c.advanced(a).due(b) == c.due(a + b),
{
    let interval = c.tick_interval as int;
    let first = c.advanced(a);
    lemma_advance_keeps_wf(c, a);
    lemma_advance_keeps_wf(first, b);
    let q = (c.due(a) + first.due(b)) as int;
    let r = first.advanced(b).frame_time as int;
    assert(q * interval == c.due(a) * interval + first.due(b) * interval) by (nonlinear_arith)
        requires
            q == c.due(a) + first.due(b),
    ;
    lemma_fundamental_div_mod_converse((c.frame_time + a + b) as int, interval, q, r);
}

/// Letting exactly `k` whole intervals pass hands out exactly `k` of them and
/// leaves the carried time as it was.
pub proof fn lemma_whole_intervals(c: ClockModel, k: nat)
    requires
        c.wf(),
    ensures
        c.due(k * c.tick_interval) == k,
        c.advanced(k * c.tick_interval) == c,
{
    let interval = c.tick_interval as int;
    assert(k * c.tick_interval == k * interval);
    lemma_fundamental_div_mod_converse(
        c.frame_time + k * interval,
        interval,
        k as int,
        c.frame_time as int,
    );
}

/// Time carried over towards the next automatic attack, and the interval at
/// which those attacks fire.
#[derive(Clone, Copy, Debug)]
pub struct SimulationClock {
    frame_time: u64,
    tick_interval: u64,
}

impl View for SimulationClock {
    type V = ClockModel;

    closed spec fn view(&self) -> ClockModel {
        ClockModel { frame_time: self.frame_time as nat, tick_interval: self.tick_interval as nat }
    }
}

impl Default for SimulationClock {
    /// Nothing carried over, at the default interval.
    fn default() -> (r: Self)
        ensures
            r@ == (ClockModel { frame_time: 0, tick_interval: DEFAULT_TICK_INTERVAL as nat }),
    {
        SimulationClock { frame_time: 0, tick_interval: DEFAULT_TICK_INTERVAL }
    }
}

impl SimulationClock {
    #[verifier::type_invariant]
    spec fn inv(&self) -> bool {
        self.frame_time < self.tick_interval
    }

    /// Nothing carried over, at the given interval; `None` when the interval
    /// is zero.
    pub fn new(tick_interval: u64) -> (r: Option<Self>)
        ensures
            r is Some <==> tick_interval > 0,
            r matches Some(c) ==> c@ == (ClockModel {
                frame_time: 0,
                tick_interval: tick_interval as nat,
            }),
    {
        if tick_interval > 0 {
            Some(SimulationClock { frame_time: 0, tick_interval })
        } else {
            None
        }
    }

    pub fn frame_time(&self) -> (r: u64)
        ensures
            r == self@.frame_time,
            self@.wf(),
    {
        proof {
            use_type_invariant(self);
        }
        self.frame_time
    }

    pub fn tick_interval(&self) -> (r: u64)
        ensures
            r == self@.tick_interval,
            self@.wf(),
    {
        proof {
            use_type_invariant(self);
        }
        self.tick_interval
    }

    /// Lets `dt` units pass. Returns the number of whole intervals that have
    /// elapsed and keeps what is left over.
    pub fn update_time(&mut self, dt: u64) -> (fired: u64)
        ensures
            fired == old(self)@.due(dt as nat),
            final(self)@ == old(self)@.advanced(dt as nat),
            final(self)@.wf(),
    {
        proof {
            use_type_invariant(&*self);
            lemma_advance_keeps_wf(self@, dt as nat);
        }
        let interval = self.tick_interval as u128;
        let total = self.frame_time as u128 + dt as u128;
        let fired = total / interval;
        let rest = total % interval;
        assert(fired <= u64::MAX) by (nonlinear_arith)
            requires
                interval >= 1,
                fired * interval + rest == total,
                0 <= rest,
                total <= interval + u64::MAX - 1,
        ;
        self.frame_time = rest as u64;
        fired as u64
    }
}

} // verus!
