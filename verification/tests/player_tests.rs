use horde::player::{
    fire_weapon, move_player, Facing, Heading, MoveKeys, Player, WeaponType,
};

fn keys() -> MoveKeys {
    MoveKeys {
        up: false,
        down: false,
        left: false,
        right: false,
        digit1: false,
        digit2: false,
        digit3: false,
    }
}

#[test]
fn new_player_defaults() {
    let p = Player::new();
    assert_eq!(p.weapon_type, WeaponType::Melee);
    assert_eq!(p.weapon_facing, Facing::Right);
    assert_eq!(p.weapon_level, 1);
}

#[test]
fn arrows_give_direction_and_facing() {
    let mut p = Player::new();
    let mut k = keys();
    k.up = true;
    k.left = true;
    assert_eq!(move_player(&mut p, &k), (-1, 1));
    assert_eq!(p.weapon_facing, Facing::Left);

    let mut k = keys();
    k.left = true;
    k.right = true;
    k.down = true;
    assert_eq!(move_player(&mut p, &k), (0, -1));
    assert_eq!(p.weapon_facing, Facing::Left);

    let mut k = keys();
    k.right = true;
    assert_eq!(move_player(&mut p, &k), (1, 0));
    assert_eq!(p.weapon_facing, Facing::Right);
    assert_eq!(move_player(&mut p, &keys()), (0, 0));
    assert_eq!(p.weapon_facing, Facing::Right);
    assert_eq!(p.weapon_facing.x(), 1);
}

#[test]
fn highest_digit_picks_weapon() {
    let mut p = Player::new();
    let mut k = keys();
    k.digit2 = true;
    move_player(&mut p, &k);
    assert_eq!(p.weapon_type, WeaponType::RadialBurst);
    k.digit3 = true;
    k.digit1 = true;
    move_player(&mut p, &k);
    assert_eq!(p.weapon_type, WeaponType::HeavyRadial);
    move_player(&mut p, &keys());
    assert_eq!(p.weapon_type, WeaponType::HeavyRadial);
    let mut k = keys();
    k.digit1 = true;
    move_player(&mut p, &k);
    assert_eq!(p.weapon_type, WeaponType::Melee);
}

#[test]
fn no_shot_without_fire_key() {
    let p = Player::new();
    assert!(fire_weapon(&p, false).is_empty());
}

#[test]
fn melee_swipe() {
    let mut p = Player::new();
    p.weapon_facing = Facing::Left;
    let shots = fire_weapon(&p, true);
    assert_eq!(shots.len(), 1);
    let s = shots[0];
    assert_eq!(s.weapon, WeaponType::Melee);
    assert_eq!(s.radius, 2);
    assert_eq!(s.speed, 300);
    assert_eq!(s.heading, Heading::Along(Facing::Left));
    assert_eq!(s.max_distance, 25);
    assert_eq!(s.lifetime_ms, 100);
}

#[test]
fn radial_burst_nine_ways() {
    let mut p = Player::new();
    p.weapon_type = WeaponType::RadialBurst;
    let shots = fire_weapon(&p, true);
    assert_eq!(shots.len(), 9);
    for (i, s) in shots.iter().enumerate() {
        assert_eq!(s.heading, Heading::Turn { step: i as u32, steps: 9 });
        assert_eq!((s.radius, s.speed, s.max_distance, s.lifetime_ms), (5, 150, 350, 10000));
    }
}

#[test]
fn heavy_radial_four_ways() {
    let mut p = Player::new();
    p.weapon_type = WeaponType::HeavyRadial;
    let shots = fire_weapon(&p, true);
    assert_eq!(shots.len(), 4);
    for (i, s) in shots.iter().enumerate() {
        assert_eq!(s.heading, Heading::Turn { step: i as u32, steps: 4 });
        assert_eq!((s.radius, s.speed, s.max_distance, s.lifetime_ms), (10, 75, 75, 10000));
    }
}
