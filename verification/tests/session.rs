use byteclicker::battler::{Battler, BytePet, EAttribute, ELevel};
use byteclicker::clock::SimulationClock;
use byteclicker::game::{GameState, REWARD_REFERENCE_LEVEL};
use byteclicker::hp::HpSystem;
use byteclicker::level::LevelStatusSystem;
use byteclicker::player::Player;
use byteclicker::scene::Scene;
use byteclicker::status::Status;

fn fighter(name: &str, max_hp: u64, level: u32, total_exp: u64, status: Status) -> Battler {
    let progression = LevelStatusSystem::new(level, total_exp, Status::new(5, 4, 2), 30, 1).unwrap();
    Battler {
        s_hp: HpSystem::new(max_hp),
        name: name.to_owned(),
        data: BytePet::new(1, progression, ELevel::Rookie, EAttribute::Free, status),
    }
}

/// Two allies of strength 25 each against an enemy of 200 hit points; the
/// template that follows has 300.
fn session() -> GameState {
    let mut player = Player::default();
    assert!(player.add_pet(fighter("a", 100, 1, 0, Status::default())));
    assert!(player.add_pet(fighter("b", 100, 1, 40, Status::default())));
    let scene = Scene::new(
        "Test1".to_owned(),
        vec![fighter("next", 300, 2, 0, Status::default())],
        fighter("opener", 200, 1, 0, Status::default()),
    )
    .unwrap();
    GameState { player, scene, clock: SimulationClock::default() }
}

fn ally(gs: &GameState, slot: usize) -> &Battler {
    gs.player.active_team.active_team[slot].as_ref().unwrap()
}

/// Everything a session shows: enemy name and hit points, counters, carried
/// time, and each slot's experience and level.
fn summary(gs: &GameState) -> (String, u64, u64, u64, u64, Vec<Option<(u64, u32)>>) {
    (
        gs.scene.active_enemy().name.clone(),
        gs.scene.active_enemy().get_hp(),
        gs.player.clicks,
        gs.player.total_defeated,
        gs.clock.frame_time(),
        gs.player
            .active_team
            .active_team
            .iter()
            .map(|s| s.as_ref().map(|b| (b.data.s_level.total_exp(), b.data.s_level.level())))
            .collect(),
    )
}

#[test]
fn attack_damage_is_the_team_strength() {
    let gs = session();
    assert_eq!(gs.attack_damage(), Some(50));
    assert_eq!(gs.player.get_power(), Some(50));
}

#[test]
fn first_attack_takes_team_strength_off_the_enemy() {
    let mut gs = session();
    assert!(gs.manual_dmg());
    assert_eq!(gs.scene.active_enemy().get_hp(), 150);
    assert_eq!(gs.scene.active_enemy().name, "opener");
    assert_eq!(gs.player.clicks, 1);
    assert_eq!(gs.player.total_defeated, 0);
    assert_eq!(ally(&gs, 0).data.s_level.total_exp(), 0);
    assert_eq!(ally(&gs, 1).data.s_level.total_exp(), 40);
}

#[test]
fn enemy_falls_exactly_on_the_fourth_attack() {
    let mut gs = session();
    for expected in [150u64, 100, 50] {
        assert!(gs.manual_dmg());
        assert_eq!(gs.scene.active_enemy().get_hp(), expected);
        assert_eq!(gs.scene.active_enemy().name, "opener");
        assert_eq!(gs.player.total_defeated, 0);
    }
    let reward = fighter("opener", 200, 1, 0, Status::default())
        .data
        .s_level
        .given_exp(REWARD_REFERENCE_LEVEL)
        .unwrap();
    assert_eq!(reward, 31);
    assert!(gs.manual_dmg());
    assert_eq!(gs.player.clicks, 4);
    assert_eq!(gs.player.total_defeated, 1);
    assert_eq!(gs.scene.active_enemy().name, "next");
    assert_eq!(gs.scene.active_enemy().get_hp(), 300);
    assert_eq!(gs.scene.active_enemy().s_hp.hp_base(), 300);
    assert_eq!(ally(&gs, 0).data.s_level.total_exp(), reward);
    assert_eq!(ally(&gs, 0).data.s_level.level(), 1);
    assert_eq!(ally(&gs, 1).data.s_level.total_exp(), 40 + reward);
    assert_eq!(ally(&gs, 1).data.s_level.level(), 2);
    assert!(gs.player.active_team.active_team[2].is_none());
}

#[test]
fn attacks_grow_stronger_with_the_team_level() {
    let mut gs = session();
    for _ in 0..4 {
        assert!(gs.manual_dmg());
    }
    assert_eq!(gs.attack_damage(), Some(55));
    assert!(gs.manual_dmg());
    assert_eq!(gs.scene.active_enemy().get_hp(), 245);
}

#[test]
fn reward_is_measured_from_the_defeated_enemy() {
    let mut gs = session();
    for _ in 0..4 {
        assert!(gs.manual_dmg());
    }
    let before = ally(&gs, 0).data.s_level.total_exp();
    let mut hits = 0;
    while gs.player.total_defeated < 2 {
        assert!(gs.manual_dmg());
        hits += 1;
    }
    assert_eq!(hits, 6);
    assert_eq!(ally(&gs, 0).data.s_level.total_exp(), before + 61);
    assert_eq!(gs.scene.active_enemy().name, "next");
    assert_eq!(gs.scene.active_enemy().get_hp(), 300);
}

#[test]
fn attack_with_an_empty_team_only_counts_the_click() {
    let mut gs = session();
    gs.player = Player::default();
    assert_eq!(gs.attack_damage(), Some(0));
    assert!(gs.manual_dmg());
    assert_eq!(gs.scene.active_enemy().get_hp(), 200);
    assert_eq!(gs.player.clicks, 1);
    assert_eq!(gs.player.total_defeated, 0);
}

#[test]
fn attack_is_refused_when_the_click_counter_is_full() {
    let mut gs = session();
    gs.player.clicks = u64::MAX;
    let before = summary(&gs);
    assert_eq!(gs.attack_damage(), None);
    assert!(!gs.manual_dmg());
    assert_eq!(summary(&gs), before);
    gs.player.clicks = u64::MAX - 1;
    assert!(gs.manual_dmg());
    assert_eq!(gs.player.clicks, u64::MAX);
    assert_eq!(gs.scene.active_enemy().get_hp(), 150);
}

#[test]
fn defeat_is_refused_when_the_defeat_counter_is_full() {
    let mut gs = session();
    gs.player.total_defeated = u64::MAX;
    for _ in 0..3 {
        assert!(gs.manual_dmg());
    }
    let before = summary(&gs);
    assert_eq!(before.1, 50);
    assert_eq!(gs.attack_damage(), None);
    assert!(!gs.manual_dmg());
    assert_eq!(summary(&gs), before);
}

#[test]
fn defeat_is_refused_when_a_member_cannot_take_the_reward() {
    let mut gs = session();
    assert!(gs.player.add_pet(fighter("c", 100, 1, u64::MAX - 30, Status::new(0, 0, 0))));
    assert_eq!(gs.attack_damage(), Some(55));
    for _ in 0..3 {
        assert!(gs.manual_dmg());
    }
    let before = summary(&gs);
    assert_eq!(before.1, 35);
    assert!(!gs.manual_dmg());
    assert_eq!(summary(&gs), before);
}

#[test]
fn defeat_is_refused_when_the_reward_exceeds_u64() {
    let mut gs = session();
    gs.scene = Scene::new(
        "Test1".to_owned(),
        vec![fighter("next", 300, 2, 0, Status::default())],
        fighter("titan", 60, 999, 0, Status::default()),
    )
    .unwrap();
    assert!(gs.manual_dmg());
    let before = summary(&gs);
    assert_eq!(before.1, 10);
    assert!(!gs.manual_dmg());
    assert_eq!(summary(&gs), before);
}

#[test]
fn attack_is_refused_when_team_power_exceeds_u64() {
    let mut gs = session();
    assert!(gs.player.add_pet(fighter("c", 100, 1, 0, Status::new(0, u64::MAX - 30, 0))));
    let before = summary(&gs);
    assert_eq!(gs.attack_damage(), None);
    assert!(!gs.manual_dmg());
    assert_eq!(summary(&gs), before);
}

#[test]
fn time_short_of_an_interval_makes_no_attack() {
    let mut gs = session();
    assert!(gs.auto_dmg(599_999));
    assert_eq!(summary(&gs), ("opener".to_owned(), 200, 0, 0, 599_999, summary(&session()).5));
    assert!(gs.auto_dmg(1));
    assert_eq!(gs.scene.active_enemy().get_hp(), 150);
    assert_eq!(gs.player.clicks, 1);
    assert_eq!(gs.clock.frame_time(), 0);
}

#[test]
fn three_intervals_at_once_equal_three_single_intervals() {
    let mut at_once = session();
    let mut one_by_one = session();
    assert!(at_once.auto_dmg(1_800_000));
    for _ in 0..3 {
        assert!(one_by_one.auto_dmg(600_000));
    }
    assert_eq!(at_once.player.clicks, 3);
    assert_eq!(at_once.scene.active_enemy().get_hp(), 50);
    assert_eq!(at_once.clock.frame_time(), 0);
    assert_eq!(summary(&at_once), summary(&one_by_one));
}

#[test]
fn a_long_stall_resolves_every_attack_in_order() {
    let mut stalled = session();
    let mut clicked = session();
    assert!(stalled.auto_dmg(10 * 600_000 + 123));
    for _ in 0..10 {
        assert!(clicked.manual_dmg());
    }
    assert_eq!(stalled.clock.frame_time(), 123);
    assert_eq!(stalled.player.clicks, 10);
    assert_eq!(stalled.player.total_defeated, 2);
    let (name, hp, clicks, defeated, _, team) = summary(&stalled);
    let (name2, hp2, clicks2, defeated2, _, team2) = summary(&clicked);
    assert_eq!((name, hp, clicks, defeated, team), (name2, hp2, clicks2, defeated2, team2));
}

#[test]
fn splitting_elapsed_time_changes_nothing() {
    for (a, b) in [(250_000u64, 350_000u64), (1, 2_399_999), (1_000_000, 1_000_000), (0, 700_000)] {
        let mut whole = session();
        let mut parts = session();
        assert!(whole.auto_dmg(a + b));
        assert!(parts.auto_dmg(a));
        assert!(parts.auto_dmg(b));
        assert_eq!(summary(&whole), summary(&parts));
        assert!(whole.clock.frame_time() < whole.clock.tick_interval());
    }
}

#[test]
fn time_still_passes_when_attacks_are_refused() {
    let mut gs = session();
    gs.player.clicks = u64::MAX - 1;
    assert!(!gs.auto_dmg(1_500_000));
    assert_eq!(gs.player.clicks, u64::MAX);
    assert_eq!(gs.scene.active_enemy().get_hp(), 150);
    assert_eq!(gs.clock.frame_time(), 300_000);
    assert!(gs.auto_dmg(299_999));
    assert!(!gs.auto_dmg(1));
    assert_eq!(gs.scene.active_enemy().get_hp(), 150);
    assert_eq!(gs.clock.frame_time(), 0);
}

#[test]
fn custom_interval_is_honoured() {
    let mut gs = session();
    gs.clock = SimulationClock::new(10).unwrap();
    assert!(gs.auto_dmg(25));
    assert_eq!(gs.player.clicks, 2);
    assert_eq!(gs.scene.active_enemy().get_hp(), 100);
    assert_eq!(gs.clock.frame_time(), 5);
}
