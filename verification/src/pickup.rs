//! Gems dropped by fallen enemies: how they fly to the player, and how
//! collecting them raises the player's weapon level.

use vstd::prelude::*;
use crate::player::Player;

verus! {

/// Speed of a moving gem, in world units per second.
pub const PICKUP_SPEED: u32 = 300;

/// Distance a gem bounces away from the player before it homes in.
pub const BOUNCE_DISTANCE: u32 = 50;

/// Radius of a gem's body and collider.
pub const GEM_RADIUS: u32 = 10;

/// Gems needed for each weapon level.
pub const GEMS_PER_LEVEL: u32 = 5;

/// The phase of a dropped gem: lying still, bouncing away from the player
/// once it comes within pickup range, then homing in on the player. How far
/// a bounce has left to go is kept by the game shell.
#[derive(Clone, Copy, Debug, PartialEq, Eq, Structural)]
pub enum PickupState {
    Dropped,
    Bounce,
    Homing,
}

/// What a pickup is.
#[derive(Clone, Copy, Debug, PartialEq, Eq, Structural)]
pub enum PickupType {
    Gem,
}

/// A dropped pickup.
#[derive(Clone, Copy, Debug, PartialEq, Eq, Structural)]
pub struct Pickup {
    pub state: PickupState,
    pub pickup_type: PickupType,
}

/// The player's running totals.
#[derive(Clone, Copy, Debug, PartialEq, Eq, Structural)]
pub struct PlayerStats {
    pub gems: u32,
}

/// How a gem moves in a frame.
#[derive(Clone, Copy, Debug, PartialEq, Eq, Structural)]
pub enum PickupMotion {
    Stay,
    /// Straight away from the player at `PICKUP_SPEED`; the bounce's
    /// remaining distance shrinks by what was travelled.
    Away,
    /// Straight at the player at `PICKUP_SPEED`.
    Toward,
}

/// The gem left where an enemy fell: lying still.
pub fn on_enemy_killed() -> (p: Pickup)
    ensures
        p == (Pickup { state: PickupState::Dropped, pickup_type: PickupType::Gem }),
{
    Pickup { state: PickupState::Dropped, pickup_type: PickupType::Gem }
}

/// One frame of a gem's flight. A lying gem starts to bounce (a bounce of
/// `BOUNCE_DISTANCE`) once the player is within pickup range; a bouncing gem
/// moves away from the player until its bounce is spent, then homes in; a
/// homing gem moves at the player. The frame in which a gem changes phase it
/// does not move.
pub open spec fn spec_update_pickup(
    state: PickupState,
    player_within_pickup_radius: bool,
    bounce_spent: bool,
) -> (PickupState, PickupMotion) {
    match state {
        PickupState::Dropped => if player_within_pickup_radius {
            (PickupState::Bounce, PickupMotion::Stay)
        } else {
            (PickupState::Dropped, PickupMotion::Stay)
        },
        PickupState::Bounce => if bounce_spent {
            (PickupState::Homing, PickupMotion::Stay)
        } else {
            (PickupState::Bounce, PickupMotion::Away)
        },
        PickupState::Homing => (PickupState::Homing, PickupMotion::Toward),
    }
}

/// The length of the bounce that starts this frame: `BOUNCE_DISTANCE` when
/// a lying gem finds the player within pickup range, none otherwise.
pub open spec fn spec_bounce_start(state: PickupState, player_within_pickup_radius: bool) -> Option<u32> {
    if state == PickupState::Dropped && player_within_pickup_radius {
        Some(BOUNCE_DISTANCE)
    } else {
        None
    }
}

/// What a frame of a gem's flight asks of the game shell.
#[derive(Clone, Copy, Debug, PartialEq, Eq, Structural)]
pub struct PickupStep {
    /// How the gem moves this frame.
    pub motion: PickupMotion,
    /// The distance of a bounce that starts this frame, if one does; the
    /// shell counts it down as the gem moves away.
    pub bounce_start: Option<u32>,
}

/// One frame of a gem's flight; see `spec_update_pickup` and
/// `spec_bounce_start`. `player_within_pickup_radius` is read only while the
/// gem lies still, and `bounce_spent` (no bounce distance left) only while it
/// bounces.
pub fn update_pickup(pickup: &mut Pickup, player_within_pickup_radius: bool, bounce_spent: bool) -> (step: PickupStep)
    ensures
        old(pickup).state == PickupState::Homing ==> final(pickup).state == PickupState::Homing
            && step.motion == PickupMotion::Toward,
        old(pickup).state == PickupState::Dropped ==> step.motion == PickupMotion::Stay && (
        final(pickup).state == PickupState::Bounce <==> player_within_pickup_radius) && (
        final(pickup).state == PickupState::Bounce || final(pickup).state
            == PickupState::Dropped),
        old(pickup).state == PickupState::Bounce && bounce_spent ==> final(pickup).state
            == PickupState::Homing && step.motion == PickupMotion::Stay,
        old(pickup).state == PickupState::Bounce && !bounce_spent ==> final(pickup).state
            == PickupState::Bounce && step.motion == PickupMotion::Away,
        (final(pickup).state, step.motion) == spec_update_pickup(
            old(pickup).state,
            player_within_pickup_radius,
            bounce_spent,
        ),
        step.bounce_start == spec_bounce_start(old(pickup).state, player_within_pickup_radius),
        final(pickup).pickup_type == old(pickup).pickup_type,
{
    match pickup.state {
        PickupState::Dropped => {
            if player_within_pickup_radius {
                pickup.state = PickupState::Bounce;
                PickupStep { motion: PickupMotion::Stay, bounce_start: Some(BOUNCE_DISTANCE) }
            } else {
                PickupStep { motion: PickupMotion::Stay, bounce_start: None }
            }
        },
        PickupState::Bounce => {
            if bounce_spent {
                pickup.state = PickupState::Homing;
                PickupStep { motion: PickupMotion::Stay, bounce_start: None }
            } else {
                PickupStep { motion: PickupMotion::Away, bounce_start: None }
            }
        },
        PickupState::Homing => PickupStep { motion: PickupMotion::Toward, bounce_start: None },
    }
}

/// How far along its flight a gem is: 0 lying, 1 bouncing, 2 homing.
pub open spec fn phase_rank(state: PickupState) -> int {
    match state {
        PickupState::Dropped => 0,
        PickupState::Bounce => 1,
        PickupState::Homing => 2,
    }
}

/// A gem's flight only moves forward, one phase at most per frame, and a
/// homing gem homes for good.
pub proof fn lemma_pickup_phase_progress(state: PickupState, within: bool, spent: bool)
    ensures
        phase_rank(state) <= phase_rank(spec_update_pickup(state, within, spent).0) <= phase_rank(
            state,
        ) + 1,
        state == PickupState::Homing ==> spec_update_pickup(state, within, spent).0
            == PickupState::Homing,
{
}

/// How many of the flags are set.
pub open spec fn count_true(s: Seq<bool>) -> nat
    decreases s.len(),
{
    if s.len() == 0 {
        0
    } else {
        count_true(s.drop_last()) + if s.last() {
            1nat
        } else {
            0nat
        }
    }
}

/// The indices of the set flags, ascending.
pub open spec fn true_indices(s: Seq<bool>) -> Seq<int>
    decreases s.len(),
{
    if s.len() == 0 {
        Seq::empty()
    } else if s.last() {
        true_indices(s.drop_last()).push(s.len() - 1)
    } else {
        true_indices(s.drop_last())
    }
}

/// Weapon levels earned by going from `gems` to `gems + more` gems: one for
/// every multiple of `GEMS_PER_LEVEL` reached on the way.
pub open spec fn levels_gained(gems: int, more: int) -> int {
    (gems + more) / GEMS_PER_LEVEL as int - gems / GEMS_PER_LEVEL as int
}

proof fn lemma_count_true_prefix(s: Seq<bool>, i: int)
    requires
        0 <= i <= s.len(),
    ensures
        count_true(s.take(i)) <= count_true(s),
    decreases s.len(),
{
    if i < s.len() {
        assert(s.drop_last().take(i) =~= s.take(i));
        lemma_count_true_prefix(s.drop_last(), i);
    } else {
        assert(s.take(i) =~= s);
    }
}

proof fn lemma_levels_gained_monotone(gems: int, a: int, b: int)
    requires
        gems >= 0,
        0 <= a <= b,
    ensures
        levels_gained(gems, a) <= levels_gained(gems, b),
{
    vstd::arithmetic::div_mod::lemma_div_is_ordered(gems + a, gems + b, GEMS_PER_LEVEL as int);
}

proof fn lemma_one_more_gem(g: int)
    requires
        g >= 0,
    ensures
        levels_gained(g, 1) == if (g + 1) % GEMS_PER_LEVEL as int == 0 {
            1int
        } else {
            0int
        },
{
}

/// Collects the gems the player touches this frame. `overlaps[i]` says
/// whether pickup `i` touches the player. Each touched gem adds one to the
/// player's gems, and each time the gem count reaches a multiple of
/// `GEMS_PER_LEVEL` the weapon level goes up by one. Returns the indices of
/// the collected pickups, ascending, for the game shell to remove.
pub fn detect_collisions(stats: &mut PlayerStats, player: &mut Player, overlaps: &Vec<bool>) -> (collected: Vec<usize>)
    requires
        old(stats).gems + count_true(overlaps@) <= u32::MAX,
        old(player).weapon_level + levels_gained(old(stats).gems as int, count_true(overlaps@) as int)
            <= u32::MAX,
    ensures
        final(stats).gems == old(stats).gems + count_true(overlaps@),
        final(player).weapon_level == old(player).weapon_level + levels_gained(
            old(stats).gems as int,
            count_true(overlaps@) as int,
        ),
        final(player).weapon_type == old(player).weapon_type,
        final(player).weapon_facing == old(player).weapon_facing,
        collected@.map_values(|i: usize| i as int) == true_indices(overlaps@),
{
    let ghost g0 = old(stats).gems as int;
    let ghost l0 = old(player).weapon_level as int;
    let mut collected: Vec<usize> = Vec::new();
    let mut i: usize = 0;
    while i < overlaps.len()
        invariant
            i <= overlaps@.len(),
            g0 == old(stats).gems,
            l0 == old(player).weapon_level,
            g0 + count_true(overlaps@) <= u32::MAX,
            l0 + levels_gained(g0, count_true(overlaps@) as int) <= u32::MAX,
            stats.gems == g0 + count_true(overlaps@.take(i as int)),
            player.weapon_level == l0 + levels_gained(g0, count_true(overlaps@.take(i as int)) as int),
            player.weapon_type == old(player).weapon_type,
            player.weapon_facing == old(player).weapon_facing,
            collected@.map_values(|k: usize| k as int) == true_indices(overlaps@.take(i as int)),
        decreases overlaps@.len() - i,
    {
        let ghost prefix = overlaps@.take(i as int);
        let ghost next = overlaps@.take(i + 1);
        assert(next.drop_last() =~= prefix);
        proof {
            lemma_count_true_prefix(overlaps@, i + 1);
            lemma_levels_gained_monotone(g0, count_true(next) as int, count_true(overlaps@) as int);
        }
        if overlaps[i] {
            proof {
                lemma_one_more_gem(stats.gems as int);
                assert(levels_gained(g0, count_true(prefix) + 1int) == levels_gained(g0, count_true(prefix) as int)
                    + levels_gained(stats.gems as int, 1));
            }
            stats.gems = stats.gems + 1;
            collected.push(i);
            if stats.gems % GEMS_PER_LEVEL == 0 {
                player.weapon_level = player.weapon_level + 1;
            }
            assert(collected@.map_values(|k: usize| k as int) =~= true_indices(prefix).push(i as int));
        }
        i = i + 1;
    }
    assert(overlaps@.take(overlaps@.len() as int) =~= overlaps@);
    collected
}

/// Collecting gems in two batches raises the weapon level exactly as
/// collecting them all at once.
pub proof fn lemma_levels_gained_split(gems: int, a: int, b: int)
    ensures
        levels_gained(gems, a) + levels_gained(gems + a, b) == levels_gained(gems, a + b),
{
}

/// The weapon level is one more than the number of completed batches of
/// `GEMS_PER_LEVEL` gems, as it is when the game starts (no gems, level 1),
/// and every collection keeps it so.
pub proof fn lemma_level_tracks_gems(gems: int, level: int, more: int)
    requires
        level == 1 + gems / GEMS_PER_LEVEL as int,
    ensures
        level + levels_gained(gems, more) == 1 + (gems + more) / GEMS_PER_LEVEL as int,
{
}

/// A homing gem homes for good and always flies at the player, wherever the
/// player is and whatever is left of its bounce.
pub proof fn lemma_homing_always_toward(within: bool, spent: bool)
    ensures
        spec_update_pickup(PickupState::Homing, within, spent) == (
            PickupState::Homing,
            PickupMotion::Toward,
        ),
        spec_bounce_start(PickupState::Homing, within) is None,
{
}

/// A lying gem does not move; it starts a bounce of 50 units exactly when the
/// player is within pickup range, and otherwise keeps lying.
pub proof fn lemma_dropped_gem(within: bool, spent: bool)
    ensures
        spec_update_pickup(PickupState::Dropped, within, spent).1 == PickupMotion::Stay,
        within ==> spec_update_pickup(PickupState::Dropped, within, spent).0 == PickupState::Bounce,
        !within ==> spec_update_pickup(PickupState::Dropped, within, spent).0
            == PickupState::Dropped,
        within ==> spec_bounce_start(PickupState::Dropped, within) == Some(50u32),
        !within ==> spec_bounce_start(PickupState::Dropped, within) is None,
{
}

/// A bouncing gem moves away from the player until its bounce is spent, then
/// turns to homing without moving that frame; where the player is makes no
/// difference, and no new bounce starts.
pub proof fn lemma_bouncing_gem(within: bool, spent: bool)
    ensures
        !spent ==> spec_update_pickup(PickupState::Bounce, within, spent) == (
            PickupState::Bounce,
            PickupMotion::Away,
        ),
        spent ==> spec_update_pickup(PickupState::Bounce, within, spent) == (
            PickupState::Homing,
            PickupMotion::Stay,
        ),
        spec_bounce_start(PickupState::Bounce, within) is None,
{
}

/// The collected pickups are exactly the touched ones, listed once each in
/// ascending order, and there are as many of them as gems gained.
pub proof fn lemma_true_indices(s: Seq<bool>)
    ensures
        true_indices(s).len() == count_true(s),
        forall|k: int|
            0 <= k < true_indices(s).len() ==> 0 <= #[trigger] true_indices(s)[k] < s.len()
                && s[true_indices(s)[k]],
        forall|j: int, k: int|
            0 <= j < k < true_indices(s).len() ==> #[trigger] true_indices(s)[j]
                < #[trigger] true_indices(s)[k],
        forall|i: int| 0 <= i < s.len() && #[trigger] s[i] ==> true_indices(s).contains(i),
    decreases s.len(),
{
    if s.len() > 0 {
        let prev = s.drop_last();
        lemma_true_indices(prev);
        let t = true_indices(s);
        assert forall|k: int| 0 <= k < true_indices(prev).len() implies true_indices(prev)[k]
            < s.len() - 1 && s[true_indices(prev)[k]] by {
            assert(prev[true_indices(prev)[k]] == s[true_indices(prev)[k]]);
        }
        assert forall|i: int| 0 <= i < s.len() && #[trigger] s[i] implies t.contains(i) by {
            if i < s.len() - 1 {
                assert(prev[i] == s[i]);
                let k = choose|k: int| 0 <= k < true_indices(prev).len() && true_indices(prev)[k] == i;
                if s.last() {
                    assert(t[k] == i);
                } else {
                    assert(t[k] == i);
                }
            } else {
                assert(t[t.len() - 1] == i);
            }
        }
    }
}

/// One more gem raises the weapon level by one exactly when the new gem count
/// is a multiple of five, and by nothing otherwise.
pub proof fn lemma_level_up_on_fifth_gem(gems: int)
    requires
        gems >= 0,
    ensures
        (gems + 1) % 5 == 0 ==> levels_gained(gems, 1) == 1,
        (gems + 1) % 5 != 0 ==> levels_gained(gems, 1) == 0,
{
    lemma_one_more_gem(gems);
}

/// The tuning of gems: they fly at 300 units per second, bounce 50 units,
/// have radius 10, and every 5 gems make a weapon level.
pub proof fn lemma_gem_tuning()
    ensures
        PICKUP_SPEED == 300,
        BOUNCE_DISTANCE == 50,
        GEM_RADIUS == 10,
        GEMS_PER_LEVEL == 5,
{
}

} // verus!
