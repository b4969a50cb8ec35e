use horde::debug::{debug_inputs, debug_text, draw_debug_data, setup, DebugConfig};
use horde::map::setup_world;
use horde::pickup::PlayerStats;
use horde::player::Player;

#[test]
fn floor_tiles() {
    let tiles = setup_world();
    assert_eq!(tiles.len(), 104 * 104);
    assert_eq!(tiles[0], (-2500, -2500));
    assert_eq!(tiles[1], (-2452, -2500));
    assert_eq!(tiles[103], (-2500 + 48 * 103, -2500));
    assert_eq!(tiles[104], (-2500, -2452));
    assert_eq!(tiles[104 * 104 - 1], (2444, 2444));
}

#[test]
fn overlay_toggle() {
    let mut c = DebugConfig::new();
    assert!(!c.visuals_enabled);
    debug_inputs(&mut c, false);
    assert!(!c.visuals_enabled);
    debug_inputs(&mut c, true);
    assert!(c.visuals_enabled);
    debug_inputs(&mut c, true);
    assert!(!c.visuals_enabled);
}

#[test]
fn status_line() {
    assert_eq!(setup(), "Gems: 0 Level: 1");
    assert_eq!(debug_text(1234, 56), "Gems: 1234 Level: 56");
    assert_eq!(debug_text(u32::MAX, 10), format!("Gems: {} Level: 10", u32::MAX));
    let mut player = Player::new();
    player.weapon_level = 3;
    assert_eq!(draw_debug_data(&PlayerStats { gems: 12 }, &player), "Gems: 12 Level: 3");
}

