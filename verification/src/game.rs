//! The session: player, encounter and clock, and the two operations that
//! drive them, the manual attack and the passing of time.
//!
//! Counters, experience and power are natural numbers in the model and `u64`
//! values in memory. An attack whose outcome would not fit is refused as a
//! whole: it reports `false` and changes nothing.

use crate::battler::BattlerModel;
use crate::clock::{
    lemma_advance_keeps_wf,
    lemma_advance_splits,
    lemma_whole_intervals,
    ClockModel,
    SimulationClock,
};
use crate::level::lemma_formula_nonnegative;
use crate::player::{team_takes, Player, PlayerModel};
use crate::scene::{Scene, SceneModel};
use vstd::prelude::*;

verus! {

/// Level from which the reward for a defeated enemy is measured.
pub const REWARD_REFERENCE_LEVEL: u32 = 1;

/// Mathematical model of [`GameState`].
pub struct GameModel {
    pub player: PlayerModel,
    pub scene: SceneModel,
    pub clock: ClockModel,
}

impl GameModel {
    /// Damage of one attack: the strength of the team's aggregate power.
    pub open spec fn damage(self) -> nat {
        self.player.power().str
    }

    /// Experience the team earns if the active enemy is defeated now.
    pub open spec fn bounty(self) -> nat {
        self.scene.active_enemy.data.s_level.reward(REWARD_REFERENCE_LEVEL as nat) as nat
    }

    /// Whether the next attack defeats the active enemy.
    pub open spec fn defeats(self) -> bool {
        self.scene.defeated_by(self.damage())
    }

    /// Whether everything the next attack computes and stores is a `u64`
    /// value: the team's power, the click counter, and, if the enemy falls,
    /// the bounty, every member's experience and the defeat counter.
    pub open spec fn attack_in_range(self) -> bool {
        &&& self.player.power().fits()
        &&& self.player.clicks < u64::MAX
        &&& self.defeats() ==> {
            &&& self.bounty() <= u64::MAX
            &&& team_takes(self.player.active_team, self.bounty())
            &&& self.player.total_defeated < u64::MAX
        }
    }

    /// One attack: the active enemy takes the team's strength as damage and
    /// the click is counted; if the enemy falls, it is replaced, every team
    /// member earns the bounty and the defeat is counted.
    pub open spec fn attacked(self) -> GameModel {
        GameModel {
            player: if self.defeats() {
                self.player.clicked().rewarded(self.bounty())
            } else {
                self.player.clicked()
            },
            scene: self.scene.damaged(self.damage()),
            clock: self.clock,
        }
    }

    /// One attack, refused as a whole when it is out of range.
    pub open spec fn struck(self) -> GameModel {
        if self.attack_in_range() {
            self.attacked()
        } else {
            self
        }
    }

    /// `n` attacks in a row, each fully resolved before the next begins.
    pub open spec fn struck_n(self, n: nat) -> GameModel
        decreases n,
    {
        if n == 0 {
            self
        } else {
            self.struck_n((n - 1) as nat).struck()
        }
    }

    /// Whether each of `n` attacks in a row is in range.
    pub open spec fn all_in_range(self, n: nat) -> bool
        decreases n,
    {
        n == 0 || (self.all_in_range((n - 1) as nat) && self.struck_n(
            (n - 1) as nat,
        ).attack_in_range())
    }

    /// The session with its clock moved on by `dt`, before any attack that
    /// this makes due.
    pub open spec fn wound(self, dt: nat) -> GameModel {
        GameModel { clock: self.clock.advanced(dt), ..self }
    }

    /// The passing of `dt` units of time: the clock moves on, and one attack
    /// is made for every whole interval that has elapsed.
    pub open spec fn ticked(self, dt: nat) -> GameModel {
        self.wound(dt).struck_n(self.clock.due(dt))
    }
}

/// Attacks never touch the clock, and the clock never changes what an attack
/// does.
pub proof fn lemma_strikes_ignore_clock(g: GameModel, c: ClockModel, n: nat)
    ensures
        (GameModel { clock: c, ..g }).struck_n(n) == (GameModel { clock: c, ..g.struck_n(n) }),
        (GameModel { clock: c, ..g }).all_in_range(n) == g.all_in_range(n),
    decreases n,
{
    if n > 0 {
        lemma_strikes_ignore_clock(g, c, (n - 1) as nat);
    }
}

/// `a` attacks followed by `b` attacks are `a + b` attacks.
pub proof fn lemma_strikes_add(g: GameModel, a: nat, b: nat)
    ensures
        g.struck_n(a).struck_n(b) == g.struck_n(a + b),
        g.all_in_range(a + b) == (g.all_in_range(a) && g.struck_n(a).all_in_range(b)),
    decreases b,
{
    if b > 0 {
        lemma_strikes_add(g, a, (b - 1) as nat);
        assert((a + b - 1) as nat == a + (b - 1) as nat);
    }
}

/// Once an attack is refused, every later one is refused too and the session
/// stays as it is.
pub proof fn lemma_refused_stays(g: GameModel, n: nat)
    requires
        !g.attack_in_range(),
    ensures
        g.struck_n(n) == g,
        n > 0 ==> !g.all_in_range(n),
    decreases n,
{
    if n > 0 {
        lemma_refused_stays(g, (n - 1) as nat);
    }
}

/// Letting `a` units pass and then `b` units has the same effect as letting
/// `a + b` units pass at once: the same attacks are made in the same order
/// and the same time is carried over.
pub proof fn lemma_tick_splits(g: GameModel, a: nat, b: nat)
    requires
        g.clock.tick_interval > 0,
    ensures
        g.ticked(a).ticked(b) == g.ticked(a + b),
{
    let first = g.clock.due(a);
    let second = g.clock.advanced(a).due(b);
    lemma_advance_splits(g.clock, a, b);
    lemma_strikes_ignore_clock(g, g.clock.advanced(a), first);
    lemma_strikes_ignore_clock(g, g.clock.advanced(a + b), first);
    lemma_strikes_ignore_clock(g, g.clock.advanced(a + b), first + second);
    lemma_strikes_ignore_clock(g.struck_n(first), g.clock.advanced(a + b), second);
    lemma_strikes_add(g, first, second);
}

/// Letting exactly `k` whole intervals pass makes exactly `k` attacks and
/// leaves the carried time as it was: three intervals at once are three
/// attacks, as are three single intervals one after another.
pub proof fn lemma_tick_whole_intervals(g: GameModel, k: nat)
    requires
        g.clock.wf(),
    ensures
        g.clock.due(k * g.clock.tick_interval) == k,
        g.ticked(k * g.clock.tick_interval) == g.struck_n(k),
{
    lemma_whole_intervals(g.clock, k);
    assert(g.wound(k * g.clock.tick_interval) == g);
}

/// Whether a team slot after some step still holds the combatant it held
/// before, with no less experience and no lower level.
pub open spec fn slot_kept(before: Option<BattlerModel>, after: Option<BattlerModel>) -> bool {
    match (before, after) {
        (Some(a), Some(b)) => {
            &&& b.name == a.name
            &&& b.s_hp == a.s_hp
            &&& b.data.status == a.data.status
            &&& b.data.s_level.level >= a.data.s_level.level
            &&& b.data.s_level.total_exp >= a.data.s_level.total_exp
        },
        (None, None) => true,
        _ => false,
    }
}

/// An attack, performed or refused, never lowers a counter, never empties,
/// fills or reorders a team slot, never takes experience or a level from a
/// team member, and leaves the pool of templates and the clock alone.
pub proof fn lemma_strike_keeps(g: GameModel)
    ensures
        g.struck().player.clicks >= g.player.clicks,
        g.struck().player.total_defeated >= g.player.total_defeated,
        g.struck().player.active_team.len() == g.player.active_team.len(),
        forall|i: int|
            0 <= i < g.player.active_team.len() ==> slot_kept(
                #[trigger] g.player.active_team[i],
                g.struck().player.active_team[i],
            ),
        g.struck().scene.possible_enemies == g.scene.possible_enemies,
        g.struck().scene.name == g.scene.name,
        g.struck().clock == g.clock,
{
}

/// After any passing of time less than one interval is carried over.
pub proof fn lemma_tick_keeps_clock(g: GameModel, dt: nat)
    requires
        g.clock.tick_interval > 0,
    ensures
        g.ticked(dt).clock == g.clock.advanced(dt),
        g.ticked(dt).clock.wf(),
{
    lemma_advance_keeps_wf(g.clock, dt);
    lemma_strikes_ignore_clock(g, g.clock.advanced(dt), g.clock.due(dt));
}

/// One session of the game.
#[derive(Debug)]
pub struct GameState {
    pub player: Player,
    pub scene: Scene,
    pub clock: SimulationClock,
}

impl View for GameState {
    type V = GameModel;

    open spec fn view(&self) -> GameModel {
        GameModel { player: self.player@, scene: self.scene@, clock: self.clock@ }
    }
}

impl GameState {
    /// Damage of the next attack, or `None` when that attack is out of
    /// range.
    pub fn attack_damage(&self) -> (r: Option<u64>)
        ensures
            r is Some <==> self@.attack_in_range(),
            r matches Some(dmg) ==> dmg == self@.damage(),
    {
        let dmg = match self.player.get_power() {
            Some(dmg) => dmg,
            None => {
                return None;
            },
        };
        if self.player.clicks == u64::MAX {
            return None;
        }
        let enemy = self.scene.active_enemy();
        proof {
            lemma_formula_nonnegative(enemy@.data.s_level);
        }
        if dmg >= enemy.get_hp() {
            match enemy.data.s_level.given_exp(REWARD_REFERENCE_LEVEL) {
                Some(exp) => {
                    if !self.player.can_take_exp(exp) || self.player.total_defeated == u64::MAX {
                        return None;
                    }
                },
                None => {
                    return None;
                },
            }
        }
        Some(dmg)
    }

    /// One attack on the active enemy.
    ///
    /// Returns `false`, and changes nothing, when the attack is out of range.
    pub fn manual_dmg(&mut self) -> (done: bool)
        ensures
            done == old(self)@.attack_in_range(),
            final(self)@ == old(self)@.struck(),
    {
        let dmg = match self.attack_damage() {
            Some(dmg) => dmg,
            None => {
                return false;
            },
        };
        proof {
            lemma_formula_nonnegative(self@.scene.active_enemy.data.s_level);
        }
        let e = self.scene.do_damage(dmg);
        self.player.clicks += 1;
        if let Some(x) = e {
            if let Some(exp) = x.data.s_level.given_exp(REWARD_REFERENCE_LEVEL) {
                self.player.add_exp_to_pets(exp);
                self.player.total_defeated += 1;
            }
        }
        true
    }

    /// Lets `dt` units of time pass and makes one attack for every whole
    /// interval that has elapsed, earliest first.
    ///
    /// Returns whether every one of those attacks was in range. A refused
    /// attack changes nothing, so the attacks after it are refused as well.
    pub fn auto_dmg(&mut self, dt: u64) -> (done: bool)
        ensures
            done == old(self)@.all_in_range(old(self)@.clock.due(dt as nat)),
            final(self)@ == old(self)@.ticked(dt as nat),
    {
        let due = self.clock.update_time(dt);
        let ghost start = self@;
        proof {
            lemma_strikes_ignore_clock(old(self)@, start.clock, due as nat);
        }
        let mut i: u64 = 0;
        while i < due
            invariant
                i <= due,
                due == old(self)@.clock.due(dt as nat),
                start == old(self)@.wound(dt as nat),
                start.all_in_range(due as nat) == old(self)@.all_in_range(due as nat),
                self@ == start.struck_n(i as nat),
                start.all_in_range(i as nat),
            decreases due - i,
        {
            if !self.manual_dmg() {
                proof {
                    lemma_strikes_add(start, i as nat, (due - i) as nat);
                    lemma_refused_stays(start.struck_n(i as nat), (due - i) as nat);
                }
                return false;
            }
            i += 1;
        }
        true
    }
}

} // verus!
