//! The encounter: a pool of enemy templates and the enemy currently faced.

use crate::battler::{Battler, BattlerModel};
use vstd::prelude::*;

verus! {

/// Model of a pool of templates.
pub open spec fn pool_view(pool: Seq<Battler>) -> Seq<BattlerModel> {
    Seq::new(pool.len(), |i: int| pool[i]@)
}

/// Mathematical model of [`Scene`].
pub struct SceneModel {
    pub name: Seq<char>,
    pub possible_enemies: Seq<BattlerModel>,
    pub active_enemy: BattlerModel,
}

impl SceneModel {
    /// There is at least one template to draw the next enemy from.
    pub open spec fn wf(self) -> bool {
        self.possible_enemies.len() > 0
    }

    /// The active enemy after `dmg` points of damage.
    pub open spec fn hit(self, dmg: nat) -> BattlerModel {
        self.active_enemy.damaged(dmg)
    }

    /// Whether `dmg` points of damage defeat the active enemy.
    pub open spec fn defeated_by(self, dmg: nat) -> bool {
        !self.hit(dmg).s_hp.alive()
    }

    /// A copy of the first template takes the active enemy's place.
    pub open spec fn respawned(self) -> SceneModel {
        SceneModel { active_enemy: self.possible_enemies[0], ..self }
    }

    /// The active enemy is replaced if it is no longer alive.
    pub open spec fn checked(self) -> SceneModel {
        if self.active_enemy.s_hp.alive() {
            self
        } else {
            self.respawned()
        }
    }

    /// The scene after the active enemy took `dmg` points of damage and, once
    /// defeated, was replaced.
    pub open spec fn damaged(self, dmg: nat) -> SceneModel {
        (SceneModel { active_enemy: self.hit(dmg), ..self }).checked()
    }
}

/// Why a scene cannot be set up.
#[derive(Clone, Copy, Debug, PartialEq, Eq, Structural)]
pub enum SceneError {
    /// The pool of enemy templates is empty.
    NoEnemies,
}

/// A named area with its pool of enemy templates and its active enemy. The
/// pool is never empty.
#[derive(Debug)]
pub struct Scene {
    name: String,
    possible_enemies: Vec<Battler>,
    active_enemy: Battler,
}

impl View for Scene {
    type V = SceneModel;

    closed spec fn view(&self) -> SceneModel {
        SceneModel {
            name: self.name@,
            possible_enemies: pool_view(self.possible_enemies@),
            active_enemy: self.active_enemy@,
        }
    }
}

impl Scene {
    #[verifier::type_invariant]
    spec fn inv(&self) -> bool {
        self.possible_enemies@.len() > 0
    }

    /// A scene with the given pool and first enemy, or
    /// [`SceneError::NoEnemies`] when the pool is empty.
    pub fn new(name: String, possible_enemies: Vec<Battler>, active_enemy: Battler) -> (r: Result<
        Scene,
        SceneError,
    >)
        ensures
            r is Ok <==> possible_enemies@.len() > 0,
            r matches Ok(s) ==> s@ == (SceneModel {
                name: name@,
                possible_enemies: pool_view(possible_enemies@),
                active_enemy: active_enemy@,
            }),
            r matches Err(e) ==> e == SceneError::NoEnemies,
    {
        if possible_enemies.len() == 0 {
            Err(SceneError::NoEnemies)
        } else {
            Ok(Scene { name, possible_enemies, active_enemy })
        }
    }

    pub fn name(&self) -> (r: &String)
        ensures
            r@ == self@.name,
    {
        &self.name
    }

    pub fn active_enemy(&self) -> (r: &Battler)
        ensures
            r@ == self@.active_enemy,
            self@.wf(),
    {
        proof {
            use_type_invariant(self);
        }
        &self.active_enemy
    }

    pub fn possible_enemies(&self) -> (r: &Vec<Battler>)
        ensures
            pool_view(r@) == self@.possible_enemies,
            self@.wf(),
    {
        proof {
            use_type_invariant(self);
        }
        &self.possible_enemies
    }

    /// Deals `dmg` points of damage to the active enemy. If that defeats it,
    /// returns a copy of the defeated enemy and puts a copy of the first
    /// template in its place; otherwise returns `None`.
    pub fn do_damage(&mut self, dmg: u64) -> (r: Option<Battler>)
        ensures
            final(self)@ == old(self)@.damaged(dmg as nat),
            r is Some <==> old(self)@.defeated_by(dmg as nat),
            r matches Some(past) ==> past@ == old(self)@.hit(dmg as nat),
            final(self)@.wf(),
    {
        proof {
            use_type_invariant(&*self);
        }
        let mut s_hp = self.active_enemy.s_hp;
        s_hp.do_damage(dmg);
        self.active_enemy.s_hp = s_hp;
        self.check_enemy_defeated()
    }

    /// If the active enemy is no longer alive, returns a copy of it and puts
    /// a copy of the first template in its place; otherwise returns `None`.
    pub fn check_enemy_defeated(&mut self) -> (r: Option<Battler>)
        ensures
            final(self)@ == old(self)@.checked(),
            r is Some <==> !old(self)@.active_enemy.s_hp.alive(),
            r matches Some(past) ==> past@ == old(self)@.active_enemy,
            final(self)@.wf(),
    {
        proof {
            use_type_invariant(&*self);
        }
        if !self.active_enemy.s_hp.is_alive() {
            let past_enemy = self.active_enemy.clone();
            self.new_enemy();
            return Some(past_enemy);
        }
        None
    }

    /// Puts a copy of the first template in the active enemy's place.
    pub fn new_enemy(&mut self)
        ensures
            final(self)@ == old(self)@.respawned(),
            final(self)@.wf(),
    {
        proof {
            use_type_invariant(&*self);
        }
        self.active_enemy = self.possible_enemies[0].clone();
    }
}

} // verus!
