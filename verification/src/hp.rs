//! Hit points of one combatant.

use crate::quad::gen_range;
use macroquad::rand::RandGenerator;
use vstd::prelude::*;

verus! {

/// Smallest maximum a freshly rolled combatant can get.
pub const MIN_ROLLED_HP: u64 = 100;

/// Exclusive upper end of the rolled maximum.
pub const MAX_ROLLED_HP: u64 = 1000;

/// Mathematical model of [`HpSystem`].
pub struct HpModel {
    pub max_hp: nat,
    pub hp: nat,
}

impl HpModel {
    /// Current hit points never exceed the maximum.
    pub open spec fn wf(self) -> bool {
        self.hp <= self.max_hp
    }

    /// A combatant at full health.
    pub open spec fn full(max_hp: nat) -> HpModel {
        HpModel { max_hp, hp: max_hp }
    }

    /// Healing by `amount`, capped at the maximum. A negative amount changes
    /// nothing.
    pub open spec fn healed(self, amount: int) -> HpModel {
        if amount < 0 {
            self
        } else if self.hp + amount <= self.max_hp {
            HpModel { hp: (self.hp + amount) as nat, ..self }
        } else {
            HpModel { hp: self.max_hp, ..self }
        }
    }

    /// Damage by `amount`, stopping at zero.
    pub open spec fn damaged(self, amount: nat) -> HpModel {
        if amount >= self.hp {
            HpModel { hp: 0, ..self }
        } else {
            HpModel { hp: (self.hp - amount) as nat, ..self }
        }
    }

    pub open spec fn alive(self) -> bool {
        self.hp > 0
    }
}

/// Current and maximum hit points; the current value stays within
/// `0..=maximum`.
#[derive(Clone, Copy, Debug)]
pub struct HpSystem {
    hp_base: u64,
    hp: u64,
}

impl View for HpSystem {
    type V = HpModel;

    closed spec fn view(&self) -> HpModel {
        HpModel { max_hp: self.hp_base as nat, hp: self.hp as nat }
    }
}

impl HpSystem {
    #[verifier::type_invariant]
    spec fn inv(&self) -> bool {
        self.hp <= self.hp_base
    }

    /// Full health at the given maximum.
    pub fn new(hp_base: u64) -> (r: Self)
        ensures
            r@ == HpModel::full(hp_base as nat),
    {
        HpSystem { hp_base, hp: hp_base }
    }

    /// Full health at a maximum drawn from `rng`, somewhere in
    /// `MIN_ROLLED_HP..MAX_ROLLED_HP`.
    pub fn new_rand_hp(rng: &RandGenerator) -> (r: Self)
        ensures
            MIN_ROLLED_HP <= r@.max_hp < MAX_ROLLED_HP,
            r@ == HpModel::full(r@.max_hp),
    {
        let hp_base = gen_range(rng, MIN_ROLLED_HP, MAX_ROLLED_HP);
        HpSystem::new(hp_base)
    }

    pub fn hp(&self) -> (r: u64)
        ensures
            r == self@.hp,
            self@.wf(),
    {
        proof {
            use_type_invariant(self);
        }
        self.hp
    }

    pub fn hp_base(&self) -> (r: u64)
        ensures
            r == self@.max_hp,
            self@.wf(),
    {
        proof {
            use_type_invariant(self);
        }
        self.hp_base
    }

    /// Heals by `value`; a negative `value` is ignored.
    pub fn update_hp(&mut self, value: i64)
        ensures
            final(self)@ == old(self)@.healed(value as int),
            final(self)@.wf(),
    {
        proof {
            use_type_invariant(&*self);
        }
        if value >= 0 {
            let room = self.hp_base - self.hp;
            if value as u64 >= room {
                self.hp = self.hp_base;
            } else {
                self.hp = self.hp + value as u64;
            }
        }
    }

    /// Takes `value` points of damage; the hit points stop at zero.
    pub fn do_damage(&mut self, value: u64)
        ensures
            final(self)@ == old(self)@.damaged(value as nat),
            final(self)@.wf(),
    {
        proof {
            use_type_invariant(&*self);
        }
        if value > self.hp {
            self.hp = 0;
        } else {
            self.hp = self.hp - value;
        }
    }

    pub fn is_alive(&self) -> (r: bool)
        ensures
            r == self@.alive(),
    {
        self.hp > 0
    }
}

/// After damage the hit points are the old ones less the amount, or zero when
/// the amount reaches them, and they stay within the maximum.
pub proof fn lemma_damage_clamps(m: HpModel, d: nat)
    requires
        m.wf(),
    ensures
        m.damaged(d).wf(),
        m.damaged(d).max_hp == m.max_hp,
        m.damaged(d).hp == if m.hp - d > 0 { m.hp - d } else { 0 },
{
}

/// After healing by a non-negative amount the hit points are the smaller of
/// the old ones plus the amount and the maximum.
pub proof fn lemma_heal_caps(m: HpModel, h: nat)
    requires
        m.wf(),
    ensures
        m.healed(h as int).wf(),
        m.healed(h as int).max_hp == m.max_hp,
        m.healed(h as int).hp == if m.hp + h < m.max_hp { m.hp + h } else { m.max_hp },
{
}

/// Damage of zero and healing of zero leave a valid tracker as it was.
pub proof fn lemma_zero_is_neutral(m: HpModel)
    requires
        m.wf(),
    ensures
        m.damaged(0) == m,
        m.healed(0) == m,
{
}

} // verus!
