use byteclicker::battler::{Battler, BytePet, EAttribute, ELevel};
use byteclicker::hp::HpSystem;
use byteclicker::level::LevelStatusSystem;
use byteclicker::player::{Player, TEAM_SIZE};
use byteclicker::status::Status;

fn ally(name: &str, level: u32, total_exp: u64, status: Status) -> Battler {
    let progression = LevelStatusSystem::new(level, total_exp, Status::new(5, 4, 2), 30, 1).unwrap();
    Battler {
        s_hp: HpSystem::new(100),
        name: name.to_owned(),
        data: BytePet::new(1, progression, ELevel::Rookie, EAttribute::Free, status),
    }
}

fn names(p: &Player) -> Vec<Option<String>> {
    p.active_team.active_team.iter().map(|s| s.as_ref().map(|b| b.name.clone())).collect()
}

#[test]
fn default_player_has_an_empty_team_and_zero_counters() {
    let p = Player::default();
    assert_eq!(p.clicks, 0);
    assert_eq!(p.total_defeated, 0);
    assert_eq!(p.active_team.active_team.len(), TEAM_SIZE);
    assert!(p.active_team.active_team.iter().all(|s| s.is_none()));
}

#[test]
fn empty_team_has_no_power() {
    let p = Player::default();
    let power = p.active_team.get_team_power().unwrap();
    assert_eq!((power.str, power.def, power.speed), (0, 0, 0));
    assert_eq!(p.get_power(), Some(0));
}

#[test]
fn one_pet_gives_the_team_exactly_its_power() {
    let mut p = Player::default();
    let pet = ally("a", 4, 0, Status::new(7, 8, 9));
    let own = pet.data.get_power().unwrap();
    assert_eq!((own.str, own.def, own.speed), (27, 24, 17));
    assert!(p.add_pet(pet));
    let power = p.active_team.get_team_power().unwrap();
    assert_eq!((power.str, power.def, power.speed), (27, 24, 17));
    assert_eq!(p.get_power(), Some(27));
}

#[test]
fn team_power_is_the_sum_over_occupied_slots() {
    let mut p = Player::default();
    assert!(p.add_pet(ally("a", 1, 0, Status::new(20, 10, 10))));
    assert!(p.add_pet(ally("b", 2, 0, Status::new(1, 2, 3))));
    let power = p.active_team.get_team_power().unwrap();
    assert_eq!((power.str, power.def, power.speed), (25 + 11, 14 + 10, 12 + 7));
    assert!(p.add_pet(ally("c", 3, 0, Status::new(0, 0, 0))));
    let power = p.active_team.get_team_power().unwrap();
    assert_eq!((power.str, power.def, power.speed), (36 + 15, 24 + 12, 19 + 6));
}

#[test]
fn team_power_skips_empty_slots_anywhere() {
    let mut p = Player::default();
    p.active_team.active_team[2] = Some(ally("c", 1, 0, Status::new(1, 1, 1)));
    let power = p.active_team.get_team_power().unwrap();
    assert_eq!((power.str, power.def, power.speed), (6, 5, 3));
}

#[test]
fn team_power_beyond_u64_is_none() {
    let mut p = Player::default();
    assert!(p.add_pet(ally("a", 1, 0, Status::new(u64::MAX - 5, 0, 0))));
    assert_eq!(p.get_power(), Some(u64::MAX));
    assert!(p.add_pet(ally("b", 1, 0, Status::new(0, 0, 0))));
    assert!(p.active_team.get_team_power().is_none());
    assert_eq!(p.get_power(), None);
}

#[test]
fn team_power_is_none_when_only_defense_overflows() {
    let mut p = Player::default();
    assert!(p.add_pet(ally("a", 1, 0, Status::new(0, u64::MAX - 4, 0))));
    assert!(p.add_pet(ally("b", 1, 0, Status::new(0, 0, 0))));
    assert_eq!(p.get_power(), None);
}

#[test]
fn pets_fill_the_first_empty_slot_in_order() {
    let mut p = Player::default();
    assert!(p.add_pet(ally("a", 1, 0, Status::default())));
    assert_eq!(names(&p), vec![Some("a".to_owned()), None, None]);
    assert!(p.add_pet(ally("b", 1, 0, Status::default())));
    assert_eq!(names(&p), vec![Some("a".to_owned()), Some("b".to_owned()), None]);
    assert!(p.add_pet(ally("c", 1, 0, Status::default())));
    assert_eq!(
        names(&p),
        vec![Some("a".to_owned()), Some("b".to_owned()), Some("c".to_owned())]
    );
}

#[test]
fn pet_goes_into_a_gap_before_later_slots() {
    let mut p = Player::default();
    p.active_team.active_team[0] = Some(ally("a", 1, 0, Status::default()));
    p.active_team.active_team[2] = Some(ally("c", 1, 0, Status::default()));
    assert!(p.add_pet(ally("b", 1, 0, Status::default())));
    assert_eq!(
        names(&p),
        vec![Some("a".to_owned()), Some("b".to_owned()), Some("c".to_owned())]
    );
}

#[test]
fn fourth_pet_is_refused_and_the_team_is_unchanged() {
    let mut p = Player::default();
    assert!(p.add_pet(ally("a", 1, 5, Status::new(1, 2, 3))));
    assert!(p.add_pet(ally("b", 2, 6, Status::new(4, 5, 6))));
    assert!(p.add_pet(ally("c", 3, 7, Status::new(7, 8, 9))));
    let before = p.active_team.get_team_power().unwrap();
    assert!(!p.add_pet(ally("d", 9, 9, Status::new(100, 100, 100))));
    assert_eq!(
        names(&p),
        vec![Some("a".to_owned()), Some("b".to_owned()), Some("c".to_owned())]
    );
    let after = p.active_team.get_team_power().unwrap();
    assert_eq!((after.str, after.def, after.speed), (before.str, before.def, before.speed));
    let exps: Vec<u64> =
        p.active_team.active_team.iter().map(|s| s.as_ref().unwrap().data.s_level.total_exp()).collect();
    assert_eq!(exps, vec![5, 6, 7]);
    assert_eq!(p.clicks, 0);
    assert_eq!(p.total_defeated, 0);
}

#[test]
fn experience_goes_to_every_occupied_slot() {
    let mut p = Player::default();
    assert!(p.add_pet(ally("a", 1, 0, Status::default())));
    assert!(p.add_pet(ally("b", 1, 40, Status::default())));
    assert!(p.can_take_exp(31));
    assert!(p.add_exp_to_pets(31));
    let a = p.active_team.active_team[0].as_ref().unwrap();
    let b = p.active_team.active_team[1].as_ref().unwrap();
    assert_eq!((a.data.s_level.total_exp(), a.data.s_level.level()), (31, 1));
    assert_eq!((b.data.s_level.total_exp(), b.data.s_level.level()), (71, 2));
    assert!(p.active_team.active_team[2].is_none());
    assert_eq!(a.name, "a");
    assert_eq!(a.get_hp(), 100);
    assert_eq!(p.clicks, 0);
    assert_eq!(p.total_defeated, 0);
}

#[test]
fn experience_for_an_empty_team_changes_nothing() {
    let mut p = Player::default();
    assert!(p.add_exp_to_pets(u64::MAX));
    assert!(p.active_team.active_team.iter().all(|s| s.is_none()));
}

#[test]
fn experience_that_overflows_one_member_is_refused_for_all() {
    let mut p = Player::default();
    assert!(p.add_pet(ally("a", 1, 0, Status::default())));
    assert!(p.add_pet(ally("b", 1, u64::MAX - 30, Status::default())));
    assert!(!p.can_take_exp(31));
    assert!(!p.add_exp_to_pets(31));
    let a = p.active_team.active_team[0].as_ref().unwrap();
    let b = p.active_team.active_team[1].as_ref().unwrap();
    assert_eq!((a.data.s_level.total_exp(), a.data.s_level.level()), (0, 1));
    assert_eq!((b.data.s_level.total_exp(), b.data.s_level.level()), (u64::MAX - 30, 1));
    assert!(p.can_take_exp(30));
    assert!(p.add_exp_to_pets(30));
    let b = p.active_team.active_team[1].as_ref().unwrap();
    assert_eq!((b.data.s_level.total_exp(), b.data.s_level.level()), (u64::MAX, 2));
}
