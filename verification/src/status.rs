//! Strength, defense and speed as one additive triple.

use crate::quad::gen_range;
use macroquad::rand::RandGenerator;
use vstd::prelude::*;

verus! {

/// Smallest value a rolled stat can take.
pub const MIN_ROLLED_STAT: u64 = 5;

/// Exclusive upper end of a rolled stat.
pub const MAX_ROLLED_STAT: u64 = 25;

/// Mathematical model of [`Status`]: three natural numbers.
pub struct StatusModel {
    pub str: nat,
    pub def: nat,
    pub speed: nat,
}

impl StatusModel {
    /// Base stats of a creature that was given none: 20/10/10.
    pub open spec fn starting() -> StatusModel {
        StatusModel { str: 20, def: 10, speed: 10 }
    }

    pub open spec fn zero() -> StatusModel {
        StatusModel { str: 0, def: 0, speed: 0 }
    }

    /// Element-wise sum.
    pub open spec fn plus(self, other: StatusModel) -> StatusModel {
        StatusModel {
            str: self.str + other.str,
            def: self.def + other.def,
            speed: self.speed + other.speed,
        }
    }

    /// Every component multiplied by `k`.
    pub open spec fn scaled(self, k: nat) -> StatusModel {
        StatusModel { str: self.str * k, def: self.def * k, speed: self.speed * k }
    }

    /// Every component is a `u64` value.
    pub open spec fn fits(self) -> bool {
        self.str <= u64::MAX && self.def <= u64::MAX && self.speed <= u64::MAX
    }

    /// Every component lies in `low..high`.
    pub open spec fn within(self, low: nat, high: nat) -> bool {
        &&& low <= self.str < high
        &&& low <= self.def < high
        &&& low <= self.speed < high
    }
}

/// A stat triple.
#[derive(Clone, Copy, Debug)]
pub struct Status {
    pub str: u64,
    pub def: u64,
    pub speed: u64,
}

impl View for Status {
    type V = StatusModel;

    open spec fn view(&self) -> StatusModel {
        StatusModel { str: self.str as nat, def: self.def as nat, speed: self.speed as nat }
    }
}

impl Default for Status {
    fn default() -> (r: Self)
        ensures
            r@ == StatusModel::starting(),
    {
        Status { str: 20, def: 10, speed: 10 }
    }
}

impl Status {
    pub fn new(str: u64, def: u64, speed: u64) -> (r: Self)
        ensures
            r@ == (StatusModel { str: str as nat, def: def as nat, speed: speed as nat }),
    {
        Status { str, def, speed }
    }

    /// Adds `status_upg` to `self`, component by component.
    ///
    /// Returns `false`, and changes nothing, when a sum would leave `u64`.
    pub fn sum(&mut self, status_upg: &Status) -> (ok: bool)
        ensures
            ok == old(self)@.plus(status_upg@).fits(),
            final(self)@ == if ok {
                old(self)@.plus(status_upg@)
            } else {
                old(self)@
            },
    {
        let str = self.str.checked_add(status_upg.str);
        let def = self.def.checked_add(status_upg.def);
        let speed = self.speed.checked_add(status_upg.speed);
        match (str, def, speed) {
            (Some(str), Some(def), Some(speed)) => {
                self.str = str;
                self.def = def;
                self.speed = speed;
                true
            },
            _ => false,
        }
    }

    /// The triple multiplied by `k`, or `None` when a product would leave
    /// `u64`.
    pub fn scale(&self, k: u64) -> (r: Option<Status>)
        ensures
            r is Some <==> self@.scaled(k as nat).fits(),
            r matches Some(s) ==> s@ == self@.scaled(k as nat),
    {
        let str = self.str.checked_mul(k);
        let def = self.def.checked_mul(k);
        let speed = self.speed.checked_mul(k);
        match (str, def, speed) {
            (Some(str), Some(def), Some(speed)) => Some(Status { str, def, speed }),
            _ => None,
        }
    }

    /// Three independent draws from `rng`, each in
    /// `MIN_ROLLED_STAT..MAX_ROLLED_STAT`.
    pub fn rand_status(rng: &RandGenerator) -> (r: Self)
        ensures
            r@.within(MIN_ROLLED_STAT as nat, MAX_ROLLED_STAT as nat),
    {
        Status {
            str: gen_range(rng, MIN_ROLLED_STAT, MAX_ROLLED_STAT),
            def: gen_range(rng, MIN_ROLLED_STAT, MAX_ROLLED_STAT),
            speed: gen_range(rng, MIN_ROLLED_STAT, MAX_ROLLED_STAT),
        }
    }
}

} // verus!
