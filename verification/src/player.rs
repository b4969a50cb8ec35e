//! The player's weapons, how the keyboard steers the player and picks a
//! weapon, and which projectiles a shot fires.

use vstd::prelude::*;

verus! {

/// Movement speed of the player, in world units per second.
pub const PLAYER_SPEED: u32 = 200;

/// Radius of the player's body and collider.
pub const PLAYER_RADIUS: u32 = 10;

/// Radius of a melee swipe.
pub const PROJECTILE_1_RADIUS: u32 = 2;

/// Radius of a radial-burst projectile.
pub const PROJECTILE_2_RADIUS: u32 = 5;

/// Radius of a heavy radial projectile.
pub const PROJECTILE_3_RADIUS: u32 = 10;

/// Number of projectiles in one radial burst.
pub const RADIAL_BURST_COUNT: u32 = 9;

/// Number of projectiles in one heavy radial shot.
pub const HEAVY_RADIAL_COUNT: u32 = 4;

/// The weapon the player fires.
#[derive(Clone, Copy, Debug, PartialEq, Eq, Structural)]
pub enum WeaponType {
    Melee,
    RadialBurst,
    HeavyRadial,
}

/// The horizontal side the player's weapon points to.
#[derive(Clone, Copy, Debug, PartialEq, Eq, Structural)]
pub enum Facing {
    Left,
    Right,
}

impl Facing {
    /// The x component of the unit vector the weapon points along; its y
    /// component is always zero.
    pub open spec fn spec_x(self) -> int {
        match self {
            Facing::Left => -1,
            Facing::Right => 1,
        }
    }

    /// The x component of the unit vector the weapon points along; its y
    /// component is always zero.
    pub fn x(&self) -> (r: i32)
        ensures
            r == self.spec_x(),
    {
        match self {
            Facing::Left => -1,
            Facing::Right => 1,
        }
    }
}

/// The whole-number state of the player: weapon, where it points, and its
/// level. Where the player stands is kept by the game shell.
#[derive(Clone, Copy, Debug, PartialEq, Eq, Structural)]
pub struct Player {
    pub weapon_type: WeaponType,
    pub weapon_facing: Facing,
    pub weapon_level: u32,
}

impl Player {
    /// The player as the game starts: melee weapon pointing right, level 1.
    pub open spec fn spec_new() -> Player {
        Player { weapon_type: WeaponType::Melee, weapon_facing: Facing::Right, weapon_level: 1 }
    }

    /// The player as the game starts: melee weapon pointing right, level 1.
    pub fn new() -> (p: Player)
        ensures
            p == Player::spec_new(),
    {
        Player { weapon_type: WeaponType::Melee, weapon_facing: Facing::Right, weapon_level: 1 }
    }
}

/// The keys held down in a frame that steer the player and pick its weapon.
#[derive(Clone, Copy, Debug, PartialEq, Eq, Structural)]
pub struct MoveKeys {
    pub up: bool,
    pub down: bool,
    pub left: bool,
    pub right: bool,
    pub digit1: bool,
    pub digit2: bool,
    pub digit3: bool,
}

/// One axis of keyboard input: +1 for the positive key alone, -1 for the
/// negative key alone, 0 for both or neither.
pub open spec fn axis(positive: bool, negative: bool) -> int {
    (if positive { 1int } else { 0int }) - (if negative { 1int } else { 0int })
}

/// Where the weapon points after a frame: left or right when exactly that
/// arrow is held, unchanged otherwise.
pub open spec fn spec_facing_after(facing: Facing, keys: MoveKeys) -> Facing {
    if keys.left && !keys.right {
        Facing::Left
    } else if keys.right && !keys.left {
        Facing::Right
    } else {
        facing
    }
}

/// The weapon after a frame: the highest digit key held picks it (3 heavy
/// radial, 2 radial burst, 1 melee); unchanged when none is held.
pub open spec fn spec_weapon_after(weapon: WeaponType, keys: MoveKeys) -> WeaponType {
    if keys.digit3 {
        WeaponType::HeavyRadial
    } else if keys.digit2 {
        WeaponType::RadialBurst
    } else if keys.digit1 {
        WeaponType::Melee
    } else {
        weapon
    }
}

fn key_axis(positive: bool, negative: bool) -> (r: i32)
    ensures
        r == axis(positive, negative),
{
    let mut r: i32 = 0;
    if positive {
        r = r + 1;
    }
    if negative {
        r = r - 1;
    }
    r
}

/// Applies a frame of keyboard input to the player. Returns the raw movement
/// direction `(x, y)`, each component -1, 0 or 1 (right and up positive);
/// the game shell scales it to unit length and moves the player by
/// `PLAYER_SPEED` times the frame time along it. The weapon turns to the
/// horizontal arrow held alone, and the digit keys pick the weapon.
pub fn move_player(player: &mut Player, keys: &MoveKeys) -> (direction: (i32, i32))
    ensures
        direction.0 == axis(keys.right, keys.left),
        direction.1 == axis(keys.up, keys.down),
        final(player).weapon_facing == spec_facing_after(old(player).weapon_facing, *keys),
        final(player).weapon_type == spec_weapon_after(old(player).weapon_type, *keys),
        final(player).weapon_level == old(player).weapon_level,
        keys.digit3 ==> final(player).weapon_type == WeaponType::HeavyRadial,
        !keys.digit3 && keys.digit2 ==> final(player).weapon_type == WeaponType::RadialBurst,
        !keys.digit3 && !keys.digit2 && keys.digit1 ==> final(player).weapon_type
            == WeaponType::Melee,
        !keys.digit3 && !keys.digit2 && !keys.digit1 ==> final(player).weapon_type == old(
            player,
        ).weapon_type,
        keys.left && !keys.right ==> final(player).weapon_facing == Facing::Left,
        keys.right && !keys.left ==> final(player).weapon_facing == Facing::Right,
        keys.left == keys.right ==> final(player).weapon_facing == old(player).weapon_facing,
{
    let dx: i32 = key_axis(keys.right, keys.left);
    let dy: i32 = key_axis(keys.up, keys.down);
    if dx < 0 {
        player.weapon_facing = Facing::Left;
    } else if dx > 0 {
        player.weapon_facing = Facing::Right;
    }
    if keys.digit1 {
        player.weapon_type = WeaponType::Melee;
    }
    if keys.digit2 {
        player.weapon_type = WeaponType::RadialBurst;
    }
    if keys.digit3 {
        player.weapon_type = WeaponType::HeavyRadial;
    }
    (dx, dy)
}

/// The direction a projectile flies in.
#[derive(Clone, Copy, Debug, PartialEq, Eq, Structural)]
pub enum Heading {
    /// Along the player's weapon: `(x, 0)` with `x` from the facing.
    Along(Facing),
    /// At the angle `2π / steps * step` radians, counter-clockwise from +x.
    Turn { step: u32, steps: u32 },
}

/// A projectile to place at the player's position.
#[derive(Clone, Copy, Debug, PartialEq, Eq, Structural)]
pub struct ProjectileSpawn {
    /// The weapon that fired it, which also sets its look.
    pub weapon: WeaponType,
    pub radius: u32,
    /// World units per second.
    pub speed: u32,
    pub heading: Heading,
    /// Distance after which it is removed.
    pub max_distance: u32,
    /// Time after which it is removed, in milliseconds.
    pub lifetime_ms: u32,
}

/// A melee swipe: short-lived, short-ranged, along the weapon.
pub open spec fn spec_melee(facing: Facing) -> ProjectileSpawn {
    ProjectileSpawn {
        weapon: WeaponType::Melee,
        radius: PROJECTILE_1_RADIUS,
        speed: 300,
        heading: Heading::Along(facing),
        max_distance: 25,
        lifetime_ms: 100,
    }
}

/// The `step`-th of the nine projectiles of a radial burst.
pub open spec fn spec_radial_burst(step: u32) -> ProjectileSpawn {
    ProjectileSpawn {
        weapon: WeaponType::RadialBurst,
        radius: PROJECTILE_2_RADIUS,
        speed: 150,
        heading: Heading::Turn { step, steps: RADIAL_BURST_COUNT },
        max_distance: 350,
        lifetime_ms: 10000,
    }
}

/// The `step`-th of the four projectiles of a heavy radial shot.
pub open spec fn spec_heavy_radial(step: u32) -> ProjectileSpawn {
    ProjectileSpawn {
        weapon: WeaponType::HeavyRadial,
        radius: PROJECTILE_3_RADIUS,
        speed: 75,
        heading: Heading::Turn { step, steps: HEAVY_RADIAL_COUNT },
        max_distance: 75,
        lifetime_ms: 10000,
    }
}

/// The projectiles one shot fires: nothing unless the fire key was just
/// pressed; otherwise one melee swipe along the weapon, nine radial-burst
/// projectiles at evenly spaced angles, or four heavy projectiles at evenly
/// spaced angles, by the player's weapon.
pub open spec fn spec_fire(player: Player, fire_pressed: bool) -> Seq<ProjectileSpawn> {
    if !fire_pressed {
        Seq::empty()
    } else {
        match player.weapon_type {
            WeaponType::Melee => seq![spec_melee(player.weapon_facing)],
            WeaponType::RadialBurst => Seq::new(
                RADIAL_BURST_COUNT as nat,
                |i: int| spec_radial_burst(i as u32),
            ),
            WeaponType::HeavyRadial => Seq::new(
                HEAVY_RADIAL_COUNT as nat,
                |i: int| spec_heavy_radial(i as u32),
            ),
        }
    }
}

/// A melee swipe along the player's weapon.
pub fn spawn_melee(player: &Player) -> (s: ProjectileSpawn)
    ensures
        s == spec_melee(player.weapon_facing),
        s.heading == Heading::Along(player.weapon_facing),
{
    ProjectileSpawn {
        weapon: WeaponType::Melee,
        radius: PROJECTILE_1_RADIUS,
        speed: 300,
        heading: Heading::Along(player.weapon_facing),
        max_distance: 25,
        lifetime_ms: 100,
    }
}

/// The `step`-th projectile of a radial burst.
pub fn spawn_radial_burst_projectile(step: u32) -> (s: ProjectileSpawn)
    ensures
        s == spec_radial_burst(step),
{
    ProjectileSpawn {
        weapon: WeaponType::RadialBurst,
        radius: PROJECTILE_2_RADIUS,
        speed: 150,
        heading: Heading::Turn { step, steps: RADIAL_BURST_COUNT },
        max_distance: 350,
        lifetime_ms: 10000,
    }
}

/// The `step`-th projectile of a heavy radial shot.
pub fn spawn_heavy_radial_projectile(step: u32) -> (s: ProjectileSpawn)
    ensures
        s == spec_heavy_radial(step),
{
    ProjectileSpawn {
        weapon: WeaponType::HeavyRadial,
        radius: PROJECTILE_3_RADIUS,
        speed: 75,
        heading: Heading::Turn { step, steps: HEAVY_RADIAL_COUNT },
        max_distance: 75,
        lifetime_ms: 10000,
    }
}

/// The projectiles fired this frame, to be placed at the player's position.
pub fn fire_weapon(player: &Player, fire_pressed: bool) -> (shots: Vec<ProjectileSpawn>)
    ensures
        shots@ == spec_fire(*player, fire_pressed),
{
    let mut shots: Vec<ProjectileSpawn> = Vec::new();
    if !fire_pressed {
        return shots;
    }
    match player.weapon_type {
        WeaponType::Melee => {
            shots.push(spawn_melee(player));
            assert(shots@ =~= seq![spec_melee(player.weapon_facing)]);
        },
        WeaponType::RadialBurst => {
            let mut i: u32 = 0;
            while i < RADIAL_BURST_COUNT
                invariant
                    i <= RADIAL_BURST_COUNT,
                    shots@ =~= Seq::new(i as nat, |k: int| spec_radial_burst(k as u32)),
                decreases RADIAL_BURST_COUNT - i,
            {
                shots.push(spawn_radial_burst_projectile(i));
                i = i + 1;
            }
        },
        WeaponType::HeavyRadial => {
            let mut i: u32 = 0;
            while i < HEAVY_RADIAL_COUNT
                invariant
                    i <= HEAVY_RADIAL_COUNT,
                    shots@ =~= Seq::new(i as nat, |k: int| spec_heavy_radial(k as u32)),
                decreases HEAVY_RADIAL_COUNT - i,
            {
                shots.push(spawn_heavy_radial_projectile(i));
                i = i + 1;
            }
        },
    }
    shots
}

/// The arrows held, with the digit keys left as they are and every arrow
/// released.
pub open spec fn without_arrows(keys: MoveKeys) -> MoveKeys {
    MoveKeys { up: false, down: false, left: false, right: false, ..keys }
}

/// The digit keys held, with the arrows left as they are and every digit
/// released.
pub open spec fn without_digits(keys: MoveKeys) -> MoveKeys {
    MoveKeys { digit1: false, digit2: false, digit3: false, ..keys }
}

/// The weapon is chosen by the digit keys alone: the highest digit held wins
/// (3 heavy radial, 2 radial burst, 1 melee), no digit keeps the weapon, and
/// the arrows held make no difference.
pub proof fn lemma_weapon_from_digits(weapon: WeaponType, keys: MoveKeys)
    ensures
        spec_weapon_after(weapon, keys) == spec_weapon_after(weapon, without_arrows(keys)),
        keys.digit3 ==> spec_weapon_after(weapon, keys) == WeaponType::HeavyRadial,
        !keys.digit3 && keys.digit2 ==> spec_weapon_after(weapon, keys) == WeaponType::RadialBurst,
        !keys.digit3 && !keys.digit2 && keys.digit1 ==> spec_weapon_after(weapon, keys)
            == WeaponType::Melee,
        !keys.digit3 && !keys.digit2 && !keys.digit1 ==> spec_weapon_after(weapon, keys) == weapon,
{
}

/// The weapon turns by the horizontal arrows alone: to the left or right
/// arrow held alone, and not at all when both or neither are held; the
/// vertical arrows and the digit keys make no difference.
pub proof fn lemma_facing_from_horizontal_arrows(facing: Facing, keys: MoveKeys)
    ensures
        spec_facing_after(facing, keys) == spec_facing_after(facing, without_digits(keys)),
        spec_facing_after(facing, keys) == spec_facing_after(
            facing,
            MoveKeys { up: false, down: false, ..keys },
        ),
        keys.left && !keys.right ==> spec_facing_after(facing, keys) == Facing::Left,
        keys.right && !keys.left ==> spec_facing_after(facing, keys) == Facing::Right,
        keys.left == keys.right ==> spec_facing_after(facing, keys) == facing,
        spec_facing_after(facing, keys).spec_x() == 1 || spec_facing_after(facing, keys).spec_x()
            == -1,
{
}

/// Each movement axis is +1, 0 or -1: +1 for the positive key alone, -1 for
/// the negative key alone, 0 when both or neither are held; swapping the
/// keys flips its sign.
pub proof fn lemma_axis(positive: bool, negative: bool)
    ensures
        -1 <= axis(positive, negative) <= 1,
        axis(positive, negative) == -axis(negative, positive),
        positive && !negative ==> axis(positive, negative) == 1,
        negative && !positive ==> axis(positive, negative) == -1,
        positive == negative ==> axis(positive, negative) == 0,
{
}

/// The weapon points right along +x or left along -x.
pub proof fn lemma_facing_unit(facing: Facing)
    ensures
        facing == Facing::Left ==> facing.spec_x() == -1,
        facing == Facing::Right ==> facing.spec_x() == 1,
{
}

/// The player starts with the melee weapon, pointing right, at level 1.
pub proof fn lemma_starting_player()
    ensures
        Player::spec_new().weapon_type == WeaponType::Melee,
        Player::spec_new().weapon_facing == Facing::Right,
        Player::spec_new().weapon_level == 1,
{
}

/// Nothing is fired unless the fire key was just pressed.
pub proof fn lemma_no_fire_no_shots(player: Player)
    ensures
        spec_fire(player, false).len() == 0,
{
}

/// A melee shot is one swipe along the player's weapon, whichever way it
/// faces: radius 2, speed 300, gone after 25 units or 100 ms.
pub proof fn lemma_melee_along_facing(player: Player)
    requires
        player.weapon_type == WeaponType::Melee,
    ensures
        spec_fire(player, true).len() == 1,
        spec_fire(player, true)[0].heading == Heading::Along(player.weapon_facing),
        spec_fire(player, true)[0].weapon == WeaponType::Melee,
        spec_fire(player, true)[0].radius == 2,
        spec_fire(player, true)[0].speed == 300,
        spec_fire(player, true)[0].max_distance == 25,
        spec_fire(player, true)[0].lifetime_ms == 100,
{
}

/// A radial burst is nine projectiles, the `k`-th at angle `2πk/9`: radius
/// 5, speed 150, gone after 350 units or 10 s. The player's facing plays no
/// part.
pub proof fn lemma_radial_burst_even_angles(player: Player)
    requires
        player.weapon_type == WeaponType::RadialBurst,
    ensures
        spec_fire(player, true).len() == 9,
        forall|k: int|
            0 <= k < 9 ==> {
                let s = #[trigger] spec_fire(player, true)[k];
                &&& s.heading == Heading::Turn { step: k as u32, steps: 9 }
                &&& s.weapon == WeaponType::RadialBurst
                &&& s.radius == 5
                &&& s.speed == 150
                &&& s.max_distance == 350
                &&& s.lifetime_ms == 10000
            },
{
}

/// A heavy radial shot is four projectiles, the `k`-th at angle `2πk/4`:
/// radius 10, speed 75, gone after 75 units or 10 s. The player's facing
/// plays no part.
pub proof fn lemma_heavy_radial_even_angles(player: Player)
    requires
        player.weapon_type == WeaponType::HeavyRadial,
    ensures
        spec_fire(player, true).len() == 4,
        forall|k: int|
            0 <= k < 4 ==> {
                let s = #[trigger] spec_fire(player, true)[k];
                &&& s.heading == Heading::Turn { step: k as u32, steps: 4 }
                &&& s.weapon == WeaponType::HeavyRadial
                &&& s.radius == 10
                &&& s.speed == 75
                &&& s.max_distance == 75
                &&& s.lifetime_ms == 10000
            },
{
}

/// The tuning of the player: speed 200, radius 10; projectile radii 2, 5, 10
/// for melee, radial burst and heavy radial.
pub proof fn lemma_player_tuning()
    ensures
        PLAYER_SPEED == 200,
        PLAYER_RADIUS == 10,
        PROJECTILE_1_RADIUS == 2 && PROJECTILE_2_RADIUS == 5 && PROJECTILE_3_RADIUS == 10,
        RADIAL_BURST_COUNT == 9 && HEAVY_RADIAL_COUNT == 4,
{
}

} // verus!
