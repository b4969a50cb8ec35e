use horde::pickup::{
    detect_collisions, on_enemy_killed, update_pickup, PickupMotion, PickupState, PickupStep,
    PickupType, PlayerStats,
};
use horde::player::Player;

#[test]
fn dropped_gem() {
    let p = on_enemy_killed();
    assert_eq!(p.state, PickupState::Dropped);
    assert_eq!(p.pickup_type, PickupType::Gem);
}

fn step(motion: PickupMotion, bounce_start: Option<u32>) -> PickupStep {
    PickupStep { motion, bounce_start }
}

#[test]
fn gem_flight_phases() {
    let mut p = on_enemy_killed();
    assert_eq!(update_pickup(&mut p, false, true), step(PickupMotion::Stay, None));
    assert_eq!(p.state, PickupState::Dropped);
    assert_eq!(update_pickup(&mut p, true, true), step(PickupMotion::Stay, Some(50)));
    assert_eq!(p.state, PickupState::Bounce);
    assert_eq!(update_pickup(&mut p, true, false), step(PickupMotion::Away, None));
    assert_eq!(p.state, PickupState::Bounce);
    assert_eq!(update_pickup(&mut p, false, true), step(PickupMotion::Stay, None));
    assert_eq!(p.state, PickupState::Homing);
    assert_eq!(update_pickup(&mut p, true, false), step(PickupMotion::Toward, None));
    assert_eq!(p.state, PickupState::Homing);
}

#[test]
fn every_fifth_gem_levels_up() {
    let mut stats = PlayerStats { gems: 0 };
    let mut player = Player::new();
    let collected = detect_collisions(&mut stats, &mut player, &vec![true, false, true, true]);
    assert_eq!(collected, vec![0, 2, 3]);
    assert_eq!(stats.gems, 3);
    assert_eq!(player.weapon_level, 1);
    let collected = detect_collisions(&mut stats, &mut player, &vec![true, true]);
    assert_eq!(collected, vec![0, 1]);
    assert_eq!(stats.gems, 5);
    assert_eq!(player.weapon_level, 2);
}

#[test]
fn many_gems_at_once() {
    let mut stats = PlayerStats { gems: 4 };
    let mut player = Player::new();
    player.weapon_level = 1;
    let collected = detect_collisions(&mut stats, &mut player, &vec![true; 11]);
    assert_eq!(collected.len(), 11);
    assert_eq!(stats.gems, 15);
    assert_eq!(player.weapon_level, 4);
}

#[test]
fn level_tracks_gems_one_by_one() {
    let mut stats = PlayerStats { gems: 0 };
    let mut player = Player::new();
    for _ in 0..37 {
        detect_collisions(&mut stats, &mut player, &vec![true]);
        assert_eq!(player.weapon_level, 1 + stats.gems / 5);
    }
    assert!(detect_collisions(&mut stats, &mut player, &vec![false, false]).is_empty());
    assert_eq!(stats.gems, 37);
}

#[test]
fn level_cap_only_counts_levels_gained() {
    let mut stats = PlayerStats { gems: 0 };
    let mut player = Player::new();
    player.weapon_level = u32::MAX;
    let collected = detect_collisions(&mut stats, &mut player, &vec![true; 4]);
    assert_eq!(collected.len(), 4);
    assert_eq!(player.weapon_level, u32::MAX);
}
