//! The player's team of up to three combatants and the player's counters.

use crate::battler::{Battler, BattlerModel};
use crate::status::{Status, StatusModel};
use vstd::prelude::*;

verus! {

/// Number of slots in a team.
pub const TEAM_SIZE: usize = 3;

/// Model of a team: one optional combatant per slot, in slot order.
pub type TeamModel = Seq<Option<BattlerModel>>;

/// Model of one slot.
pub open spec fn slot_view(slot: Option<Battler>) -> Option<BattlerModel> {
    match slot {
        Some(b) => Some(b@),
        None => None,
    }
}

/// Effective power of one slot; an empty slot contributes nothing.
pub open spec fn slot_power(slot: Option<BattlerModel>) -> StatusModel {
    match slot {
        Some(b) => b.data.power(),
        None => StatusModel::zero(),
    }
}

/// Sum of the effective power of every occupied slot.
pub open spec fn team_power(team: TeamModel) -> StatusModel
    decreases team.len(),
{
    if team.len() == 0 {
        StatusModel::zero()
    } else {
        team_power(team.drop_last()).plus(slot_power(team.last()))
    }
}

/// Index of the first empty slot, or the team's length when every slot is
/// occupied.
pub open spec fn first_free(team: TeamModel) -> int
    decreases team.len(),
{
    if team.len() == 0 {
        0
    } else if team[0] is None {
        0
    } else {
        1 + first_free(team.skip(1))
    }
}

/// Every slot is occupied.
pub open spec fn team_full(team: TeamModel) -> bool {
    first_free(team) == team.len()
}

/// The team with `b` placed in its first empty slot.
pub open spec fn team_with(team: TeamModel, b: BattlerModel) -> TeamModel {
    team.update(first_free(team), Some(b))
}

/// Every occupied slot can take `exp` more experience within `u64`.
pub open spec fn team_takes(team: TeamModel, exp: nat) -> bool {
    forall|i: int|
        0 <= i < team.len() ==> (#[trigger] team[i] matches Some(b) ==> b.data.s_level.total_exp
            + exp <= u64::MAX)
}

/// One slot after an award of `exp`.
pub open spec fn slot_awarded(slot: Option<BattlerModel>, exp: nat) -> Option<BattlerModel> {
    match slot {
        Some(b) => Some(b.awarded(exp)),
        None => None,
    }
}

/// The team after every occupied slot was awarded `exp`, each independently
/// of the others.
pub open spec fn team_awarded(team: TeamModel, exp: nat) -> TeamModel {
    Seq::new(team.len(), |i: int| slot_awarded(team[i], exp))
}

/// `first_free` is the one index that is empty with only occupied slots
/// before it, and the length when there is no such index.
pub proof fn lemma_first_free(team: TeamModel)
    ensures
        0 <= first_free(team) <= team.len(),
        forall|j: int| 0 <= j < first_free(team) ==> team[j] is Some,
        first_free(team) < team.len() ==> team[first_free(team)] is None,
    decreases team.len(),
{
    if team.len() > 0 && team[0] is Some {
        let rest = team.skip(1);
        lemma_first_free(rest);
        assert forall|j: int| 0 <= j < first_free(team) implies team[j] is Some by {
            if j > 0 {
                assert(team[j] == rest[j - 1]);
            }
        }
        if first_free(team) < team.len() {
            assert(team[first_free(team)] == rest[first_free(rest)]);
        }
    }
}

/// Any index that is empty with only occupied slots before it is
/// `first_free`.
pub proof fn lemma_first_free_is(team: TeamModel, i: int)
    requires
        0 <= i <= team.len(),
        forall|j: int| 0 <= j < i ==> team[j] is Some,
        i < team.len() ==> team[i] is None,
    ensures
        first_free(team) == i,
{
    lemma_first_free(team);
    let f = first_free(team);
    if f < i {
        assert(team[f] is Some);
    } else if f > i {
        assert(team[i] is Some);
    }
}

/// The power of a prefix of the team never exceeds the power of the team.
pub proof fn lemma_prefix_power(team: TeamModel, k: int)
    requires
        0 <= k <= team.len(),
    ensures
        team_power(team.take(k)).str <= team_power(team).str,
        team_power(team.take(k)).def <= team_power(team).def,
        team_power(team.take(k)).speed <= team_power(team).speed,
    decreases team.len(),
{
    if k == team.len() {
        assert(team.take(k) == team);
    } else {
        lemma_prefix_power(team.drop_last(), k);
        assert(team.drop_last().take(k) == team.take(k));
    }
}

/// Filling an empty slot adds exactly the newcomer's power to the team's.
pub proof fn lemma_power_with_slot(team: TeamModel, i: int, b: BattlerModel)
    requires
        0 <= i < team.len(),
        team[i] is None,
    ensures
        team_power(team.update(i, Some(b))) == team_power(team).plus(b.data.power()),
    decreases team.len(),
{
    let filled = team.update(i, Some(b));
    if i == team.len() - 1 {
        assert(filled.drop_last() == team.drop_last());
    } else {
        lemma_power_with_slot(team.drop_last(), i, b);
        assert(filled.drop_last() == team.drop_last().update(i, Some(b)));
    }
}

/// A team with no occupied slot has no power, and a combatant added to it
/// brings the team's power to exactly its own.
pub proof fn lemma_power_of_first_pet(team: TeamModel, b: BattlerModel)
    requires
        team.len() > 0,
        forall|i: int| 0 <= i < team.len() ==> team[i] is None,
    ensures
        team_power(team) == StatusModel::zero(),
        team_power(team_with(team, b)) == b.data.power(),
{
    lemma_power_of_empty(team);
    lemma_first_free_is(team, 0);
    lemma_power_with_slot(team, 0, b);
}

/// A team with no occupied slot has no power.
pub proof fn lemma_power_of_empty(team: TeamModel)
    requires
        forall|i: int| 0 <= i < team.len() ==> team[i] is None,
    ensures
        team_power(team) == StatusModel::zero(),
    decreases team.len(),
{
    if team.len() > 0 {
        lemma_power_of_empty(team.drop_last());
    }
}

/// Adding a combatant to a team that has room adds its power to the team's.
pub proof fn lemma_power_after_add(team: TeamModel, b: BattlerModel)
    requires
        !team_full(team),
    ensures
        team_power(team_with(team, b)) == team_power(team).plus(b.data.power()),
{
    lemma_first_free(team);
    lemma_power_with_slot(team, first_free(team), b);
}

/// The three slots of a team.
#[derive(Debug)]
pub struct TeamManager {
    pub active_team: [Option<Battler>; TEAM_SIZE],
}

impl View for TeamManager {
    type V = TeamModel;

    open spec fn view(&self) -> TeamModel {
        Seq::new(self.active_team@.len(), |i: int| slot_view(self.active_team@[i]))
    }
}

impl TeamManager {
    /// Sum of the effective power of every occupied slot, or `None` when a
    /// component exceeds `u64`.
    pub fn get_team_power(&self) -> (r: Option<Status>)
        ensures
            r is Some <==> team_power(self@).fits(),
            r matches Some(s) ==> s@ == team_power(self@),
    {
        let mut team_status = Status { str: 0, def: 0, speed: 0 };
        let mut i: usize = 0;
        assert(self@.take(0) == Seq::<Option<BattlerModel>>::empty());
        while i < TEAM_SIZE
            invariant
                i <= TEAM_SIZE,
                self@.len() == TEAM_SIZE,
                team_status@ == team_power(self@.take(i as int)),
            decreases TEAM_SIZE - i,
        {
            proof {
                lemma_prefix_power(self@, i + 1);
                assert(self@.take(i + 1).drop_last() == self@.take(i as int));
                assert(self@.take(i + 1).last() == self@[i as int]);
            }
            match &self.active_team[i] {
                Some(x) => {
                    match x.data.get_power() {
                        Some(power) => {
                            if !team_status.sum(&power) {
                                return None;
                            }
                        },
                        None => {
                            return None;
                        },
                    }
                },
                None => {},
            }
            i += 1;
        }
        assert(self@.take(TEAM_SIZE as int) == self@);
        Some(team_status)
    }
}

/// Mathematical model of [`Player`].
pub struct PlayerModel {
    pub clicks: nat,
    pub total_defeated: nat,
    pub active_team: TeamModel,
}

impl PlayerModel {
    /// Aggregate power of the team.
    pub open spec fn power(self) -> StatusModel {
        team_power(self.active_team)
    }

    /// One more manual action counted.
    pub open spec fn clicked(self) -> PlayerModel {
        PlayerModel { clicks: self.clicks + 1, ..self }
    }

    /// One more defeat counted, and `exp` awarded to every team member.
    pub open spec fn rewarded(self, exp: nat) -> PlayerModel {
        PlayerModel {
            total_defeated: self.total_defeated + 1,
            active_team: team_awarded(self.active_team, exp),
            ..self
        }
    }
}

/// The player: a team and two counters that only grow.
#[derive(Debug)]
pub struct Player {
    pub clicks: u64,
    pub total_defeated: u64,
    pub active_team: TeamManager,
}

impl View for Player {
    type V = PlayerModel;

    open spec fn view(&self) -> PlayerModel {
        PlayerModel {
            clicks: self.clicks as nat,
            total_defeated: self.total_defeated as nat,
            active_team: self.active_team@,
        }
    }
}

impl Default for Player {
    /// No clicks, no defeats, three empty slots.
    fn default() -> (r: Self)
        ensures
            r@.clicks == 0,
            r@.total_defeated == 0,
            r@.active_team.len() == TEAM_SIZE,
            forall|i: int| 0 <= i < TEAM_SIZE ==> r@.active_team[i] is None,
    {
        Player {
            clicks: 0,
            total_defeated: 0,
            active_team: TeamManager { active_team: [None, None, None] },
        }
    }
}

impl Player {
    /// Puts `new_bp` into the first empty slot.
    ///
    /// Returns `false`, and changes nothing, when every slot is occupied.
    pub fn add_pet(&mut self, new_bp: Battler) -> (ok: bool)
        ensures
            ok == !team_full(old(self)@.active_team),
            final(self)@ == if ok {
                PlayerModel {
                    active_team: team_with(old(self)@.active_team, new_bp@),
                    ..old(self)@
                }
            } else {
                old(self)@
            },
    {
        let mut i: usize = 0;
        while i < TEAM_SIZE
            invariant
                i <= TEAM_SIZE,
                *self == *old(self),
                forall|j: int| 0 <= j < i ==> self@.active_team[j] is Some,
            decreases TEAM_SIZE - i,
        {
            if self.active_team.active_team[i].is_none() {
                proof {
                    lemma_first_free_is(self@.active_team, i as int);
                }
                self.active_team.active_team[i] = Some(new_bp);
                assert(self@.active_team == team_with(old(self)@.active_team, new_bp@));
                return true;
            }
            i += 1;
        }
        proof {
            lemma_first_free_is(self@.active_team, TEAM_SIZE as int);
        }
        false
    }

    /// Whether every team member can take `exp` more experience within
    /// `u64`.
    pub fn can_take_exp(&self, exp: u64) -> (ok: bool)
        ensures
            ok == team_takes(self@.active_team, exp as nat),
    {
        let mut i: usize = 0;
        while i < TEAM_SIZE
            invariant
                i <= TEAM_SIZE,
                self@.active_team.len() == TEAM_SIZE,
                forall|j: int|
                    0 <= j < i ==> (#[trigger] self@.active_team[j] matches Some(b)
                        ==> b.data.s_level.total_exp + exp <= u64::MAX),
            decreases TEAM_SIZE - i,
        {
            match &self.active_team.active_team[i] {
                Some(x) => {
                    if x.data.s_level.total_exp().checked_add(exp).is_none() {
                        assert(self@.active_team[i as int] is Some);
                        return false;
                    }
                },
                None => {},
            }
            i += 1;
        }
        true
    }

    /// Awards `exp` to every team member, each independently of the others.
    ///
    /// Returns `false`, and changes nothing, when some member's total would
    /// leave `u64`.
    pub fn add_exp_to_pets(&mut self, exp: u64) -> (ok: bool)
        ensures
            ok == team_takes(old(self)@.active_team, exp as nat),
            final(self)@ == if ok {
                PlayerModel {
                    active_team: team_awarded(old(self)@.active_team, exp as nat),
                    ..old(self)@
                }
            } else {
                old(self)@
            },
    {
        if !self.can_take_exp(exp) {
            return false;
        }
        let mut i: usize = 0;
        while i < TEAM_SIZE
            invariant
                i <= TEAM_SIZE,
                self.clicks == old(self).clicks,
                self.total_defeated == old(self).total_defeated,
                self@.active_team.len() == TEAM_SIZE,
                team_takes(old(self)@.active_team, exp as nat),
                forall|j: int|
                    0 <= j < i ==> self@.active_team[j] == slot_awarded(
                        old(self)@.active_team[j],
                        exp as nat,
                    ),
                forall|j: int| i <= j < TEAM_SIZE ==> self@.active_team[j] == old(self)@.active_team[j],
            decreases TEAM_SIZE - i,
        {
            assert(old(self)@.active_team[i as int] == self@.active_team[i as int]);
            let ghost team_before = self@.active_team;
            match &mut self.active_team.active_team[i] {
                Some(x) => {
                    x.data.s_level.update_exp(exp);
                },
                None => {},
            }
            assert forall|j: int| 0 <= j < TEAM_SIZE implies self@.active_team[j] == if j == i {
                slot_awarded(team_before[j], exp as nat)
            } else {
                team_before[j]
            } by {}
            i += 1;
        }
        assert(self@.active_team == team_awarded(old(self)@.active_team, exp as nat));
        true
    }

    /// Damage of one attack: the strength of the team's aggregate power, or
    /// `None` when a component of that power exceeds `u64`.
    pub fn get_power(&self) -> (r: Option<u64>)
        ensures
            r is Some <==> self@.power().fits(),
            r matches Some(dmg) ==> dmg == self@.power().str,
    {
        match self.active_team.get_team_power() {
            Some(power) => Some(power.str),
            None => None,
        }
    }
}

} // verus!
