//! A combatant: classification, progression, base stats, hit points and name.

use crate::hp::{HpModel, HpSystem, MAX_ROLLED_HP, MIN_ROLLED_HP};
use crate::level::{LevelModel, LevelStatusSystem};
use crate::status::{Status, StatusModel, MAX_ROLLED_STAT, MIN_ROLLED_STAT};
use macroquad::rand::RandGenerator;
use vstd::prelude::*;

verus! {

/// Evolution tier of a creature.
#[derive(Clone, Copy, Debug, PartialEq, Eq, Structural)]
pub enum ELevel {
    Rookie,
    Champion,
    Ultimate,
}

/// Attribute of a creature.
#[derive(Clone, Copy, Debug, PartialEq, Eq, Structural)]
pub enum EAttribute {
    Vaccine,
    Data,
    Virus,
    Free,
}

/// Mathematical model of [`BytePet`].
pub struct PetModel {
    pub id: nat,
    pub s_level: LevelModel,
    pub byte_level: ELevel,
    pub attribute: EAttribute,
    pub status: StatusModel,
}

impl PetModel {
    /// Effective power: the base stats plus what leveling has added.
    pub open spec fn power(self) -> StatusModel {
        self.status.plus(self.s_level.bonus())
    }
}

/// The creature behind a combatant.
#[derive(Clone, Copy, Debug)]
pub struct BytePet {
    pub id: u8,
    pub s_level: LevelStatusSystem,
    pub byte_level: ELevel,
    pub attribute: EAttribute,
    pub status: Status,
}

impl View for BytePet {
    type V = PetModel;

    open spec fn view(&self) -> PetModel {
        PetModel {
            id: self.id as nat,
            s_level: self.s_level@,
            byte_level: self.byte_level,
            attribute: self.attribute,
            status: self.status@,
        }
    }
}

impl Default for BytePet {
    /// A free rookie with id 1, default progression and default stats.
    fn default() -> (r: Self)
        ensures
            r@ == (PetModel {
                id: 1,
                s_level: LevelModel::starting(),
                byte_level: ELevel::Rookie,
                attribute: EAttribute::Free,
                status: StatusModel::starting(),
            }),
    {
        BytePet {
            id: 1,
            s_level: LevelStatusSystem::default(),
            byte_level: ELevel::Rookie,
            attribute: EAttribute::Free,
            status: Status::default(),
        }
    }
}

impl BytePet {
    pub fn new(
        id: u8,
        level: LevelStatusSystem,
        byte_level: ELevel,
        attribute: EAttribute,
        status: Status,
    ) -> (r: Self)
        ensures
            r@ == (PetModel {
                id: id as nat,
                s_level: level@,
                byte_level,
                attribute,
                status: status@,
            }),
    {
        BytePet { id, byte_level, s_level: level, attribute, status }
    }

    /// Effective power, computed afresh on every call, or `None` when a
    /// component exceeds `u64`.
    pub fn get_power(&self) -> (r: Option<Status>)
        ensures
            r is Some <==> self@.power().fits(),
            r matches Some(s) ==> s@ == self@.power(),
    {
        match self.s_level.get_upgraded_status() {
            Some(bonus) => {
                let mut total_status = self.status;
                if total_status.sum(&bonus) {
                    Some(total_status)
                } else {
                    None
                }
            },
            None => None,
        }
    }
}

/// Mathematical model of [`Battler`].
pub struct BattlerModel {
    pub s_hp: HpModel,
    pub name: Seq<char>,
    pub data: PetModel,
}

impl BattlerModel {
    /// The same combatant after `amount` points of damage.
    pub open spec fn damaged(self, amount: nat) -> BattlerModel {
        BattlerModel { s_hp: self.s_hp.damaged(amount), ..self }
    }

    /// The same combatant after `exp` points of experience.
    pub open spec fn awarded(self, exp: nat) -> BattlerModel {
        BattlerModel {
            data: PetModel { s_level: self.data.s_level.awarded(exp), ..self.data },
            ..self
        }
    }

    /// What construction from a generator guarantees: full health at a maximum
    /// in the rolled range, base stats in the rolled range, default
    /// progression.
    pub open spec fn freshly_rolled(self) -> bool {
        &&& MIN_ROLLED_HP <= self.s_hp.max_hp < MAX_ROLLED_HP
        &&& self.s_hp == HpModel::full(self.s_hp.max_hp)
        &&& self.data.status.within(MIN_ROLLED_STAT as nat, MAX_ROLLED_STAT as nat)
        &&& self.data.s_level == LevelModel::starting()
    }
}

/// An ally or an enemy.
#[derive(Debug)]
pub struct Battler {
    pub s_hp: HpSystem,
    pub name: String,
    pub data: BytePet,
}

impl View for Battler {
    type V = BattlerModel;

    open spec fn view(&self) -> BattlerModel {
        BattlerModel { s_hp: self.s_hp@, name: self.name@, data: self.data@ }
    }
}

impl Clone for Battler {
    /// An independent copy with the same model.
    fn clone(&self) -> (r: Self)
        ensures
            r@ == self@,
    {
        Battler { s_hp: self.s_hp, name: self.name.clone(), data: self.data }
    }
}

impl Battler {
    /// A combatant with the given identity, hit points and base stats drawn
    /// from `rng`, and default progression.
    pub fn new(rng: &RandGenerator, name: String, byte_level: ELevel, attribute: EAttribute) -> (r:
        Self)
        ensures
            r@.freshly_rolled(),
            r@.name == name@,
            r@.data.id == 1,
            r@.data.byte_level == byte_level,
            r@.data.attribute == attribute,
    {
        let s_hp = HpSystem::new_rand_hp(rng);
        let status = Status::rand_status(rng);
        let data = BytePet::new(1, LevelStatusSystem::default(), byte_level, attribute, status);
        Battler { s_hp, name, data }
    }

    pub fn get_hp(&self) -> (r: u64)
        ensures
            r == self@.s_hp.hp,
    {
        self.s_hp.hp()
    }

    /// Heals by `value`; a negative `value` is ignored.
    pub fn change_hp(&mut self, value: i64)
        ensures
            final(self)@ == (BattlerModel {
                s_hp: old(self)@.s_hp.healed(value as int),
                ..old(self)@
            }),
    {
        self.s_hp.update_hp(value);
    }
}

} // verus!
