use horde::enemy::{
    build_roster, enemy_type_from_roll, pick_roam_distance, spawn_enemies, Enemy, EnemyState, EnemyType,
    MAX_CLUSTER_SIZE, MIN_CLUSTER_SIZE, NUM_CLUSTERS,
};

#[test]
fn enemy_stats_table() {
    assert_eq!(EnemyType::Small.speed(), 50);
    assert_eq!(EnemyType::Medium.speed(), 25);
    assert_eq!(EnemyType::Large.speed(), 10);
    assert_eq!(EnemyType::Small.size(), 8);
    assert_eq!(EnemyType::Medium.size(), 16);
    assert_eq!(EnemyType::Large.size(), 30);
    assert_eq!(EnemyType::Small.max_health(), 50);
    assert_eq!(EnemyType::Medium.max_health(), 100);
    assert_eq!(EnemyType::Large.max_health(), 300);
}

#[test]
fn rolls_pick_kinds() {
    assert_eq!(enemy_type_from_roll(0), EnemyType::Small);
    assert_eq!(enemy_type_from_roll(1), EnemyType::Medium);
    assert_eq!(enemy_type_from_roll(2), EnemyType::Large);
    assert_eq!(enemy_type_from_roll(7), EnemyType::Large);
}

#[test]
fn fresh_enemy_is_full_and_roaming() {
    let e = Enemy::new(EnemyType::Large);
    assert_eq!(e.current_health, 300);
    assert_eq!(e.enemy_type, EnemyType::Large);
    assert_eq!(e.state, EnemyState::Roam);
}

#[test]
fn state_follows_chase_range() {
    let mut e = Enemy::new(EnemyType::Small);
    e.update_state(true);
    assert_eq!(e.state, EnemyState::Chase);
    e.update_state(false);
    assert_eq!(e.state, EnemyState::Roam);
    assert_eq!(e.current_health, 50);
}

#[test]
fn roam_distances_in_range() {
    let mut rng = rand::thread_rng();
    for _ in 0..1000 {
        let d = pick_roam_distance(&mut rng);
        assert!((10..100).contains(&d));
    }
}

#[test]
fn opening_roster_shape() {
    let mut rng = rand::thread_rng();
    for _ in 0..50 {
        let clusters = spawn_enemies(&mut rng);
        assert_eq!(clusters.len(), NUM_CLUSTERS as usize);
        for c in &clusters {
            assert!(c.len() >= MIN_CLUSTER_SIZE as usize && c.len() < MAX_CLUSTER_SIZE as usize);
            for e in c {
                assert_eq!(*e, Enemy::new(e.enemy_type));
            }
        }
    }
}

#[test]
fn roster_from_rolls() {
    let rolls = vec![vec![0, 1, 2], vec![2, 5, 0, 1]];
    let clusters = build_roster(&rolls);
    assert_eq!(clusters.len(), 2);
    let kinds: Vec<Vec<EnemyType>> =
        clusters.iter().map(|c| c.iter().map(|e| e.enemy_type).collect()).collect();
    assert_eq!(
        kinds,
        vec![
            vec![EnemyType::Small, EnemyType::Medium, EnemyType::Large],
            vec![EnemyType::Large, EnemyType::Large, EnemyType::Small, EnemyType::Medium],
        ]
    );
    assert_eq!(clusters[1][0], Enemy::new(EnemyType::Large));
    assert!(build_roster(&vec![]).is_empty());
}

#[test]
fn roam_legs_only_when_roaming_and_spent() {
    let mut rng = rand::thread_rng();
    let mut e = Enemy::new(EnemyType::Medium);
    assert_eq!(e.next_roam_leg(false, &mut rng), None);
    for _ in 0..200 {
        let d = e.next_roam_leg(true, &mut rng).unwrap();
        assert!((10..100).contains(&d));
    }
    e.update_state(true);
    assert_eq!(e.next_roam_leg(true, &mut rng), None);
    assert_eq!(e.next_roam_leg(false, &mut rng), None);
}
