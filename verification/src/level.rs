//! Level, accumulated experience and the threshold formula.

use crate::quad::clamp;
use crate::status::{Status, StatusModel};
use vstd::arithmetic::mul::lemma_mul_inequality;
use vstd::arithmetic::power::{lemma_pow_increases, lemma_pow_positive, pow};
use vstd::prelude::*;

verus! {

/// Highest level a combatant can reach.
pub const MAX_LEVEL: u32 = 999;

/// `v` bounded to `lo..=hi`, with the lower bound taking precedence.
pub open spec fn clamped(v: int, lo: int, hi: int) -> int {
    if v < lo {
        lo
    } else if v > hi {
        hi
    } else {
        v
    }
}

/// Mathematical model of [`LevelStatusSystem`].
pub struct LevelModel {
    pub level: nat,
    pub total_exp: nat,
    pub status_upgrade: StatusModel,
    pub base_exp_needed: nat,
    pub needed_multiplier: nat,
}

impl LevelModel {
    /// Where every combatant starts: level 1 with no experience, a base of 30,
    /// a multiplier of 1 and a growth of 5/4/2 per level.
    pub open spec fn starting() -> LevelModel {
        LevelModel {
            level: 1,
            total_exp: 0,
            status_upgrade: StatusModel { str: 5, def: 4, speed: 2 },
            base_exp_needed: 30,
            needed_multiplier: 1,
        }
    }

    /// Levels run from 1 to [`MAX_LEVEL`].
    pub open spec fn wf(self) -> bool {
        1 <= self.level <= MAX_LEVEL
    }

    /// Factor by which the threshold grows from one level to the next.
    pub open spec fn factor(self) -> int {
        (self.needed_multiplier + 1) as int
    }

    /// Experience above which the next level is reached:
    /// `base_exp_needed * (needed_multiplier + 1) ^ level`.
    pub open spec fn formula(self) -> int {
        self.base_exp_needed * pow(self.factor(), self.level)
    }

    /// Experience still missing for the next level. Negative when the
    /// threshold has already been passed; zero at the highest level.
    pub open spec fn to_next(self) -> int {
        if self.level < MAX_LEVEL {
            self.formula() - self.total_exp
        } else {
            0
        }
    }

    /// Whether the level rises once the total stands at `total`.
    pub open spec fn rises_at(self, total: nat) -> bool {
        total > self.formula() && self.level < MAX_LEVEL
    }

    /// Adds `exp` to the total, then rises by one level if the new total
    /// exceeds the threshold of the current level. At most one level is gained,
    /// however large `exp` is.
    pub open spec fn awarded(self, exp: nat) -> LevelModel {
        let total = self.total_exp + exp;
        LevelModel {
            total_exp: total,
            level: if self.rises_at(total) {
                self.level + 1
            } else {
                self.level
            },
            ..self
        }
    }

    /// One award after another, in the order of `exps`.
    pub open spec fn awarded_all(self, exps: Seq<nat>) -> LevelModel
        decreases exps.len(),
    {
        if exps.len() == 0 {
            self
        } else {
            self.awarded_all(exps.drop_last()).awarded(exps.last())
        }
    }

    /// Experience granted for defeating this combatant, seen from level `lvl`:
    /// half the threshold, rounded down, times the level difference bounded to
    /// `1..=MAX_LEVEL`, plus one.
    pub open spec fn reward(self, lvl: nat) -> int {
        self.formula() / 2 * clamped(self.level - lvl, 1, MAX_LEVEL as int) + 1
    }

    /// Stats gained through leveling: the per-level growth times the level.
    pub open spec fn bonus(self) -> StatusModel {
        self.status_upgrade.scaled(self.level)
    }
}

/// The threshold is never negative.
pub proof fn lemma_formula_nonnegative(m: LevelModel)
    ensures
        m.formula() >= 0,
{
    lemma_pow_positive(m.factor(), m.level);
    assert(m.base_exp_needed * pow(m.factor(), m.level) >= 0) by (nonlinear_arith)
        requires
            m.base_exp_needed >= 0,
            pow(m.factor(), m.level) > 0,
    ;
}

/// An award never lowers the level or the total, raises the level by at most
/// one, and leaves the highest level where it is.
pub proof fn lemma_award_monotone(m: LevelModel, exp: nat)
    ensures
        m.level <= m.awarded(exp).level <= m.level + 1,
        m.awarded(exp).total_exp == m.total_exp + exp,
        m.wf() ==> m.awarded(exp).wf(),
        m.level == MAX_LEVEL ==> m.awarded(exp).level == MAX_LEVEL,
{
}

/// Across any sequence of awards the level and the total never decrease.
pub proof fn lemma_awards_monotone(m: LevelModel, exps: Seq<nat>)
    ensures
        m.level <= m.awarded_all(exps).level,
        m.total_exp <= m.awarded_all(exps).total_exp,
        m.wf() ==> m.awarded_all(exps).wf(),
    decreases exps.len(),
{
    if exps.len() > 0 {
        lemma_awards_monotone(m, exps.drop_last());
        lemma_award_monotone(m.awarded_all(exps.drop_last()), exps.last());
    }
}

/// Once the highest level is reached, no sequence of awards changes it.
pub proof fn lemma_level_ceiling(m: LevelModel, exps: Seq<nat>)
    requires
        m.level == MAX_LEVEL,
    ensures
        m.awarded_all(exps).level == MAX_LEVEL,
    decreases exps.len(),
{
    if exps.len() > 0 {
        lemma_level_ceiling(m, exps.drop_last());
    }
}

/// Level and experience of one combatant, with the constants of its threshold
/// formula and its per-level stat growth.
#[derive(Clone, Copy, Debug)]
pub struct LevelStatusSystem {
    level: u32,
    total_exp: u64,
    status_upgrade: Status,
    base_exp_needed: u64,
    needed_multiplier: u64,
}

impl View for LevelStatusSystem {
    type V = LevelModel;

    closed spec fn view(&self) -> LevelModel {
        LevelModel {
            level: self.level as nat,
            total_exp: self.total_exp as nat,
            status_upgrade: self.status_upgrade@,
            base_exp_needed: self.base_exp_needed as nat,
            needed_multiplier: self.needed_multiplier as nat,
        }
    }
}

impl Default for LevelStatusSystem {
    fn default() -> (r: Self)
        ensures
            r@ == LevelModel::starting(),
    {
        LevelStatusSystem {
            level: 1,
            total_exp: 0,
            base_exp_needed: 30,
            status_upgrade: Status { str: 5, def: 4, speed: 2 },
            needed_multiplier: 1,
        }
    }
}

impl LevelStatusSystem {
    #[verifier::type_invariant]
    spec fn inv(&self) -> bool {
        1 <= self.level <= MAX_LEVEL
    }

    /// A tracker with the given fields, or `None` when `level` lies outside
    /// `1..=MAX_LEVEL`.
    pub fn new(
        level: u32,
        total_exp: u64,
        status_upgrade: Status,
        base_exp_needed: u64,
        needed_multiplier: u64,
    ) -> (r: Option<Self>)
        ensures
            r is Some <==> 1 <= level <= MAX_LEVEL,
            r matches Some(s) ==> s@ == (LevelModel {
                level: level as nat,
                total_exp: total_exp as nat,
                status_upgrade: status_upgrade@,
                base_exp_needed: base_exp_needed as nat,
                needed_multiplier: needed_multiplier as nat,
            }),
    {
        if 1 <= level && level <= MAX_LEVEL {
            Some(
                LevelStatusSystem {
                    level,
                    total_exp,
                    status_upgrade,
                    base_exp_needed,
                    needed_multiplier,
                },
            )
        } else {
            None
        }
    }

    pub fn level(&self) -> (r: u32)
        ensures
            r == self@.level,
            self@.wf(),
    {
        proof {
            use_type_invariant(self);
        }
        self.level
    }

    pub fn total_exp(&self) -> (r: u64)
        ensures
            r == self@.total_exp,
    {
        self.total_exp
    }

    pub fn status_upgrade(&self) -> (r: Status)
        ensures
            r@ == self@.status_upgrade,
    {
        self.status_upgrade
    }

    pub fn base_exp_needed(&self) -> (r: u64)
        ensures
            r == self@.base_exp_needed,
    {
        self.base_exp_needed
    }

    pub fn needed_multiplier(&self) -> (r: u64)
        ensures
            r == self@.needed_multiplier,
    {
        self.needed_multiplier
    }

    /// The threshold in 128 bits, or `None` when even those cannot hold it.
    fn wide_formula(&self) -> (r: Option<u128>)
        ensures
            r is Some <==> self@.formula() <= u128::MAX,
            r matches Some(t) ==> t == self@.formula(),
    {
        let factor: u128 = self.needed_multiplier as u128 + 1;
        let mut acc: u128 = self.base_exp_needed as u128;
        let mut i: u32 = 0;
        proof {
            reveal_with_fuel(pow, 1);
        }
        while i < self.level
            invariant
                i <= self.level,
                factor == self.needed_multiplier + 1,
                acc == self.base_exp_needed * pow(factor as int, i as nat),
            decreases self.level - i,
        {
            let ghost step = pow(factor as int, i as nat);
            proof {
                reveal_with_fuel(pow, 2);
                assert(pow(factor as int, (i + 1) as nat) == factor * step);
                assert(self.base_exp_needed * (factor * step) == (self.base_exp_needed * step)
                    * factor) by (nonlinear_arith);
            }
            match acc.checked_mul(factor) {
                Some(next) => {
                    acc = next;
                },
                None => {
                    proof {
                        lemma_pow_increases(factor as nat, (i + 1) as nat, self.level as nat);
                        lemma_mul_inequality(
                            pow(factor as int, (i + 1) as nat),
                            pow(factor as int, self.level as nat),
                            self.base_exp_needed as int,
                        );
                        assert(self.base_exp_needed * pow(factor as int, (i + 1) as nat) == pow(
                            factor as int,
                            (i + 1) as nat,
                        ) * self.base_exp_needed) by (nonlinear_arith);
                        assert(self.base_exp_needed * pow(factor as int, self.level as nat) == pow(
                            factor as int,
                            self.level as nat,
                        ) * self.base_exp_needed) by (nonlinear_arith);
                    }
                    return None;
                },
            }
            i += 1;
        }
        Some(acc)
    }

    /// The threshold of the current level, or `None` when it exceeds `u64`.
    pub fn formula_lvlup(&self) -> (r: Option<u64>)
        ensures
            r is Some <==> self@.formula() <= u64::MAX,
            r matches Some(t) ==> t == self@.formula(),
    {
        match self.wide_formula() {
            Some(t) => if t <= u64::MAX as u128 {
                Some(t as u64)
            } else {
                None
            },
            None => None,
        }
    }

    /// Experience still missing for the next level, or `None` when the
    /// difference is not an `i64` value.
    pub fn to_next_level(&self) -> (r: Option<i64>)
        ensures
            r is Some <==> i64::MIN <= self@.to_next() <= i64::MAX,
            r matches Some(d) ==> d == self@.to_next(),
    {
        if self.level < MAX_LEVEL {
            match self.wide_formula() {
                Some(t) => {
                    let total = self.total_exp as u128;
                    if t >= total {
                        let gap = t - total;
                        if gap <= i64::MAX as u128 {
                            Some(gap as i64)
                        } else {
                            None
                        }
                    } else {
                        let gap = total - t;
                        if gap <= i64::MAX as u128 {
                            Some(-(gap as i64))
                        } else if gap == i64::MAX as u128 + 1 {
                            Some(i64::MIN)
                        } else {
                            None
                        }
                    }
                },
                None => None,
            }
        } else {
            Some(0)
        }
    }

    /// Adds `exp` to the total and rises by one level if the new total exceeds
    /// the threshold of the current level.
    ///
    /// Returns `false`, and changes nothing, when the total would leave `u64`.
    pub fn update_exp(&mut self, exp: u64) -> (ok: bool)
        ensures
            ok == (old(self)@.total_exp + exp <= u64::MAX),
            final(self)@ == if ok {
                old(self)@.awarded(exp as nat)
            } else {
                old(self)@
            },
            final(self)@.wf(),
    {
        proof {
            use_type_invariant(&*self);
        }
        match self.total_exp.checked_add(exp) {
            Some(total) => {
                let rises = self.level < MAX_LEVEL && match self.wide_formula() {
                    Some(t) => total as u128 > t,
                    None => false,
                };
                self.total_exp = total;
                if rises {
                    self.level += 1;
                }
                true
            },
            None => false,
        }
    }

    /// Experience granted for defeating this combatant, seen from level `lvl`,
    /// or `None` when it exceeds `u64`.
    pub fn given_exp(&self, lvl: u32) -> (r: Option<u64>)
        ensures
            r is Some <==> self@.reward(lvl as nat) <= u64::MAX,
            r matches Some(e) ==> e == self@.reward(lvl as nat),
    {
        proof {
            use_type_invariant(self);
            lemma_formula_nonnegative(self@);
        }
        let span = clamp(self.level as i64 - lvl as i64, 1, MAX_LEVEL as i64);
        let ghost half = self@.formula() / 2;
        assert(half * span >= half) by (nonlinear_arith)
            requires
                half >= 0,
                span >= 1,
        ;
        match self.wide_formula() {
            Some(t) => {
                let half_t = t / 2;
                if half_t <= u64::MAX as u128 {
                    assert(half_t * span <= u64::MAX * 999) by (nonlinear_arith)
                        requires
                            0 <= half_t <= u64::MAX,
                            1 <= span <= 999,
                    ;
                    let total = half_t * (span as u128) + 1;
                    if total <= u64::MAX as u128 {
                        Some(total as u64)
                    } else {
                        None
                    }
                } else {
                    None
                }
            },
            None => None,
        }
    }

    /// Stats gained through leveling, or `None` when a component exceeds
    /// `u64`.
    pub fn get_upgraded_status(&self) -> (r: Option<Status>)
        ensures
            r is Some <==> self@.bonus().fits(),
            r matches Some(s) ==> s@ == self@.bonus(),
    {
        self.status_upgrade.scale(self.level as u64)
    }
}

} // verus!
