use horde::projectile::detect_projectile_collisions;

#[test]
fn each_projectile_strikes_first_overlapped_enemy() {
    let mut healths = vec![30, 100, 50];
    let overlaps = vec![
        vec![true, true, false],
        vec![true, false, false],
        vec![false, false, false],
        vec![false, true, true],
    ];
    let report = detect_projectile_collisions(&mut healths, &overlaps);
    assert_eq!(healths, vec![-20, 75, 50]);
    assert_eq!(report.despawned_projectiles, vec![0, 1, 3]);
    assert_eq!(report.despawned_enemies, vec![0]);
}

#[test]
fn fallen_enemy_struck_again_is_listed_again() {
    let mut healths = vec![25];
    let overlaps = vec![vec![true], vec![true]];
    let report = detect_projectile_collisions(&mut healths, &overlaps);
    assert_eq!(healths, vec![-25]);
    assert_eq!(report.despawned_projectiles, vec![0, 1]);
    assert_eq!(report.despawned_enemies, vec![0, 0]);
}

#[test]
fn no_projectiles_change_nothing() {
    let mut healths = vec![50, 300];
    let overlaps: Vec<Vec<bool>> = vec![];
    let report = detect_projectile_collisions(&mut healths, &overlaps);
    assert_eq!(healths, vec![50, 300]);
    assert!(report.despawned_projectiles.is_empty());
    assert!(report.despawned_enemies.is_empty());
}

#[test]
fn total_damage_matches_spent_projectiles() {
    let mut healths = vec![100, 100, 100];
    let overlaps = vec![
        vec![false, true, true],
        vec![false, false, true],
        vec![false, false, false],
        vec![true, false, false],
    ];
    let before: i32 = healths.iter().sum();
    let report = detect_projectile_collisions(&mut healths, &overlaps);
    let after: i32 = healths.iter().sum();
    assert_eq!(before - after, 25 * report.despawned_projectiles.len() as i32);
}

#[test]
fn low_health_allowed_when_not_struck() {
    let mut healths = vec![i32::MIN, 40];
    let overlaps = vec![vec![false, true], vec![false, true]];
    let report = detect_projectile_collisions(&mut healths, &overlaps);
    assert_eq!(healths, vec![i32::MIN, -10]);
    assert_eq!(report.despawned_enemies, vec![1]);
}
