//! Enemy kinds, their stats, how they pick a behaviour, how they are spawned
//! and how projectiles wear them down.

use vstd::prelude::*;
use rand::rngs::ThreadRng;
use crate::random::gen_range_u32;

verus! {

/// The three kinds of enemy.
#[derive(Clone, Copy, Debug, PartialEq, Eq, Structural)]
pub enum EnemyType {
    Small,
    Medium,
    Large,
}

impl EnemyType {
    /// Movement speed, in world units per second.
    pub open spec fn spec_speed(self) -> int {
        match self {
            EnemyType::Small => 50,
            EnemyType::Medium => 25,
            EnemyType::Large => 10,
        }
    }

    /// Radius of the body and of its collider.
    pub open spec fn spec_size(self) -> int {
        match self {
            EnemyType::Small => 8,
            EnemyType::Medium => 16,
            EnemyType::Large => 30,
        }
    }

    /// Health that an enemy of this kind starts with.
    pub open spec fn spec_max_health(self) -> int {
        match self {
            EnemyType::Small => 50,
            EnemyType::Medium => 100,
            EnemyType::Large => 300,
        }
    }

    /// Movement speed of this kind, in world units per second.
    pub fn speed(&self) -> (r: u32)
        ensures
            r == self.spec_speed(),
    {
        match self {
            EnemyType::Small => 50,
            EnemyType::Medium => 25,
            EnemyType::Large => 10,
        }
    }

    /// Radius of this kind's body and collider.
    pub fn size(&self) -> (r: u32)
        ensures
            r == self.spec_size(),
    {
        match self {
            EnemyType::Small => 8,
            EnemyType::Medium => 16,
            EnemyType::Large => 30,
        }
    }

    /// Health that an enemy of this kind starts with.
    pub fn max_health(&self) -> (r: u32)
        ensures
            r == self.spec_max_health(),
    {
        match self {
            EnemyType::Small => 50,
            EnemyType::Medium => 100,
            EnemyType::Large => 300,
        }
    }
}


/// Whether an enemy wanders on its own or runs at the player.
#[derive(Clone, Copy, Debug, PartialEq, Eq, Structural)]
pub enum EnemyState {
    Roam,
    Chase,
}

/// Distance from the player, in world units, under which an enemy chases.
pub const CHASE_RANGE: u32 = 300;

/// Number of enemy clusters placed when the game starts.
pub const NUM_CLUSTERS: u32 = 10;

/// Fewest enemies in a cluster.
pub const MIN_CLUSTER_SIZE: u32 = 3;

/// One more than the most enemies in a cluster.
pub const MAX_CLUSTER_SIZE: u32 = 10;

/// Shortest roaming leg, in world units.
pub const MIN_ROAM_DISTANCE: u32 = 10;

/// One more than the longest roaming leg, in world units.
pub const MAX_ROAM_DISTANCE: u32 = 100;

/// The whole-number state of an enemy: its health, its kind and its
/// behaviour. Where it stands and where it roams are kept by the game shell.
#[derive(Clone, Copy, Debug, PartialEq, Eq, Structural)]
pub struct Enemy {
    pub current_health: i32,
    pub enemy_type: EnemyType,
    pub state: EnemyState,
}

/// The kind picked by a roll of `0..3`: 0 is small, 1 is medium, anything
/// else is large.
pub open spec fn spec_enemy_type_from_roll(roll: u32) -> EnemyType {
    if roll == 0 {
        EnemyType::Small
    } else if roll == 1 {
        EnemyType::Medium
    } else {
        EnemyType::Large
    }
}

/// The behaviour an enemy takes when the player is, or is not, within
/// `CHASE_RANGE` of it.
pub open spec fn spec_state_for(player_within_chase_range: bool) -> EnemyState {
    if player_within_chase_range {
        EnemyState::Chase
    } else {
        EnemyState::Roam
    }
}

impl Enemy {
    /// A fresh enemy of the given kind: full health, roaming.
    pub open spec fn spec_new(enemy_type: EnemyType) -> Enemy {
        Enemy {
            current_health: enemy_type.spec_max_health() as i32,
            enemy_type,
            state: EnemyState::Roam,
        }
    }

    /// A fresh enemy of the given kind: full health, roaming.
    pub fn new(enemy_type: EnemyType) -> (e: Enemy)
        ensures
            e == Enemy::spec_new(enemy_type),
            e.current_health == enemy_type.spec_max_health(),
    {
        let health: u32 = enemy_type.max_health();
        Enemy { current_health: health as i32, enemy_type, state: EnemyState::Roam }
    }

    /// Sets the behaviour for this frame: chase when the player is within
    /// `CHASE_RANGE`, roam otherwise. Nothing else changes.
    pub fn update_state(&mut self, player_within_chase_range: bool)
        ensures
            final(self).state == spec_state_for(player_within_chase_range),
            player_within_chase_range ==> final(self).state == EnemyState::Chase,
            !player_within_chase_range ==> final(self).state == EnemyState::Roam,
            final(self).current_health == old(self).current_health,
            final(self).enemy_type == old(self).enemy_type,
    {
        if player_within_chase_range {
            self.state = EnemyState::Chase;
        } else {
            self.state = EnemyState::Roam;
        }
    }
}

/// The kind picked by a roll of `0..3`: 0 is small, 1 is medium, anything
/// else is large.
pub fn enemy_type_from_roll(roll: u32) -> (t: EnemyType)
    ensures
        t == spec_enemy_type_from_roll(roll),
{
    if roll == 0 {
        EnemyType::Small
    } else if roll == 1 {
        EnemyType::Medium
    } else {
        EnemyType::Large
    }
}

/// Length of a new roaming leg, drawn at random from
/// `MIN_ROAM_DISTANCE..MAX_ROAM_DISTANCE`.
pub fn pick_roam_distance(rng: &mut ThreadRng) -> (d: u32)
    ensures
        MIN_ROAM_DISTANCE <= d < MAX_ROAM_DISTANCE,
{
    gen_range_u32(rng, MIN_ROAM_DISTANCE, MAX_ROAM_DISTANCE)
}

impl Enemy {
    /// Whether a roaming leg starts this frame: only for a roaming enemy
    /// whose current leg is spent (`leg_spent`: no distance left on it).
    /// Then the new leg's length is drawn with `pick_roam_distance`; the game
    /// shell draws its direction.
    pub fn next_roam_leg(&self, leg_spent: bool, rng: &mut ThreadRng) -> (leg: Option<u32>)
        ensures
            leg is Some <==> (self.state == EnemyState::Roam && leg_spent),
            leg matches Some(d) ==> MIN_ROAM_DISTANCE <= d < MAX_ROAM_DISTANCE,
    {
        match self.state {
            EnemyState::Roam => if leg_spent {
                Some(pick_roam_distance(rng))
            } else {
                None
            },
            EnemyState::Chase => None,
        }
    }
}

/// A valid opening roster: `NUM_CLUSTERS` clusters, each of
/// `MIN_CLUSTER_SIZE` to `MAX_CLUSTER_SIZE - 1` fresh enemies.
pub open spec fn valid_roster(clusters: Seq<Seq<Enemy>>) -> bool {
    &&& clusters.len() == NUM_CLUSTERS
    &&& forall|c: int|
        0 <= c < clusters.len() ==> {
            &&& MIN_CLUSTER_SIZE <= #[trigger] clusters[c].len() < MAX_CLUSTER_SIZE
            &&& forall|i: int|
                0 <= i < clusters[c].len() ==> #[trigger] clusters[c][i] == Enemy::spec_new(
                    clusters[c][i].enemy_type,
                )
        }
}

/// The roster built from kind rolls: cluster by cluster, one fresh enemy
/// of the rolled kind per roll.
pub open spec fn roster_from_rolls(rolls: Seq<Seq<u32>>) -> Seq<Seq<Enemy>> {
    rolls.map_values(
        |cluster: Seq<u32>|
            cluster.map_values(|roll: u32| Enemy::spec_new(spec_enemy_type_from_roll(roll))),
    )
}

/// Rolls as the opening draws them: `NUM_CLUSTERS` clusters of
/// `MIN_CLUSTER_SIZE..MAX_CLUSTER_SIZE` rolls, each roll in `0..3`.
pub open spec fn valid_rolls(rolls: Seq<Seq<u32>>) -> bool {
    &&& rolls.len() == NUM_CLUSTERS
    &&& forall|c: int|
        0 <= c < rolls.len() ==> {
            &&& MIN_CLUSTER_SIZE <= #[trigger] rolls[c].len() < MAX_CLUSTER_SIZE
            &&& forall|i: int| 0 <= i < rolls[c].len() ==> #[trigger] rolls[c][i] < 3
        }
}

/// The view of a roll table.
pub open spec fn rolls_view(rolls: &Vec<Vec<u32>>) -> Seq<Seq<u32>> {
    rolls@.map_values(|c: Vec<u32>| c@)
}

/// The view of a roster.
pub open spec fn roster_view(clusters: &Vec<Vec<Enemy>>) -> Seq<Seq<Enemy>> {
    clusters@.map_values(|c: Vec<Enemy>| c@)
}

/// Builds the roster from kind rolls: for each cluster of rolls, a cluster
/// of fresh enemies, the `i`-th of the kind rolled `i`-th.
pub fn build_roster(rolls: &Vec<Vec<u32>>) -> (clusters: Vec<Vec<Enemy>>)
    ensures
        roster_view(&clusters) == roster_from_rolls(rolls_view(rolls)),
{
    let mut clusters: Vec<Vec<Enemy>> = Vec::new();
    let mut c: usize = 0;
    while c < rolls.len()
        invariant
            c <= rolls@.len(),
            roster_view(&clusters) =~= roster_from_rolls(rolls_view(rolls)).take(c as int),
        decreases rolls@.len() - c,
    {
        let cluster_rolls: &Vec<u32> = &rolls[c];
        let mut cluster: Vec<Enemy> = Vec::new();
        let mut i: usize = 0;
        while i < cluster_rolls.len()
            invariant
                i <= cluster_rolls@.len(),
                cluster@ =~= cluster_rolls@.take(i as int).map_values(
                    |roll: u32| Enemy::spec_new(spec_enemy_type_from_roll(roll)),
                ),
            decreases cluster_rolls@.len() - i,
        {
            cluster.push(Enemy::new(enemy_type_from_roll(cluster_rolls[i])));
            i = i + 1;
            assert(cluster_rolls@.take(i as int).drop_last() =~= cluster_rolls@.take(i - 1));
        }
        assert(cluster_rolls@.take(i as int) =~= cluster_rolls@);
        let ghost prev = roster_view(&clusters);
        assert(rolls_view(rolls)[c as int] == cluster_rolls@);
        clusters.push(cluster);
        assert(roster_view(&clusters) =~= prev.push(cluster@));
        c = c + 1;
        assert(roster_view(&clusters) =~= roster_from_rolls(rolls_view(rolls)).take(c as int));
    }
    assert(roster_from_rolls(rolls_view(rolls)).take(c as int) =~= roster_from_rolls(rolls_view(rolls)));
    clusters
}

/// Every roster built from rolls as the opening draws them is a valid
/// opening roster.
pub proof fn lemma_rolled_roster_valid(rolls: Seq<Seq<u32>>)
    requires
        valid_rolls(rolls),
    ensures
        valid_roster(roster_from_rolls(rolls)),
{
    let r = roster_from_rolls(rolls);
    assert forall|c: int| 0 <= c < r.len() implies {
        &&& MIN_CLUSTER_SIZE <= #[trigger] r[c].len() < MAX_CLUSTER_SIZE
        &&& forall|i: int| 0 <= i < r[c].len() ==> #[trigger] r[c][i] == Enemy::spec_new(r[c][i].enemy_type)
    } by {
        assert(MIN_CLUSTER_SIZE <= rolls[c].len() < MAX_CLUSTER_SIZE);
    }
}

/// Draws the opening roster of enemies: `NUM_CLUSTERS` clusters, each with a
/// random number of enemies in `MIN_CLUSTER_SIZE..MAX_CLUSTER_SIZE`, each
/// enemy of a kind rolled at random from `0..3`, at full health and roaming.
/// Where each cluster and enemy stands is drawn by the game shell.
pub fn spawn_enemies(rng: &mut ThreadRng) -> (clusters: Vec<Vec<Enemy>>)
    ensures
        exists|rolls: Seq<Seq<u32>>|
            valid_rolls(rolls) && roster_view(&clusters) == roster_from_rolls(rolls),
        valid_roster(roster_view(&clusters)),
{
    let mut rolls: Vec<Vec<u32>> = Vec::new();
    let mut c: u32 = 0;
    while c < NUM_CLUSTERS
        invariant
            c <= NUM_CLUSTERS,
            rolls@.len() == c,
            forall|k: int|
                0 <= k < c ==> {
                    &&& MIN_CLUSTER_SIZE <= #[trigger] rolls@[k]@.len() < MAX_CLUSTER_SIZE
                    &&& forall|i: int| 0 <= i < rolls@[k]@.len() ==> #[trigger] rolls@[k]@[i] < 3
                },
        decreases NUM_CLUSTERS - c,
    {
        let num_enemies: u32 = gen_range_u32(rng, MIN_CLUSTER_SIZE, MAX_CLUSTER_SIZE);
        let mut cluster: Vec<u32> = Vec::new();
        let mut i: u32 = 0;
        while i < num_enemies
            invariant
                i <= num_enemies,
                cluster@.len() == i,
                forall|j: int| 0 <= j < i ==> #[trigger] cluster@[j] < 3,
            decreases num_enemies - i,
        {
            let roll: u32 = gen_range_u32(rng, 0, 3);
            cluster.push(roll);
            i = i + 1;
        }
        rolls.push(cluster);
        c = c + 1;
    }
    let ghost drawn = rolls_view(&rolls);
    proof {
        assert forall|k: int| 0 <= k < drawn.len() implies {
            &&& MIN_CLUSTER_SIZE <= #[trigger] drawn[k].len() < MAX_CLUSTER_SIZE
            &&& forall|i: int| 0 <= i < drawn[k].len() ==> #[trigger] drawn[k][i] < 3
        } by {
            assert(drawn[k] == rolls@[k]@);
        }
        lemma_rolled_roster_valid(drawn);
    }
    build_roster(&rolls)
}

/// The kinds from small to large are ever slower, bigger and tougher, with
/// speeds 50, 25, 10, sizes 8, 16, 30 and health 50, 100, 300.
pub proof fn lemma_enemy_kinds_ordered()
    ensures
        EnemyType::Small.spec_speed() == 50 && EnemyType::Medium.spec_speed() == 25
            && EnemyType::Large.spec_speed() == 10,
        EnemyType::Small.spec_size() == 8 && EnemyType::Medium.spec_size() == 16
            && EnemyType::Large.spec_size() == 30,
        EnemyType::Small.spec_max_health() == 50 && EnemyType::Medium.spec_max_health() == 100
            && EnemyType::Large.spec_max_health() == 300,
        EnemyType::Small.spec_speed() > EnemyType::Medium.spec_speed()
            > EnemyType::Large.spec_speed(),
        EnemyType::Small.spec_size() < EnemyType::Medium.spec_size()
            < EnemyType::Large.spec_size(),
        EnemyType::Small.spec_max_health() < EnemyType::Medium.spec_max_health()
            < EnemyType::Large.spec_max_health(),
{
}

/// A fresh enemy roams at the full health of its kind.
pub proof fn lemma_fresh_enemy(t: EnemyType)
    ensures
        Enemy::spec_new(t).current_health == t.spec_max_health(),
        Enemy::spec_new(t).enemy_type == t,
        Enemy::spec_new(t).state == EnemyState::Roam,
{
}

/// A roll of 0 gives a small enemy, 1 a medium one, anything higher a large
/// one; so a roll from `0..3` can give every kind.
pub proof fn lemma_rolls_pick_kinds(roll: u32)
    ensures
        roll == 0 ==> spec_enemy_type_from_roll(roll) == EnemyType::Small,
        roll == 1 ==> spec_enemy_type_from_roll(roll) == EnemyType::Medium,
        roll >= 2 ==> spec_enemy_type_from_roll(roll) == EnemyType::Large,
{
}

/// An enemy chases exactly when the player is within chase range, and roams
/// otherwise.
pub proof fn lemma_chase_within_range(within: bool)
    ensures
        (spec_state_for(within) == EnemyState::Chase) == within,
        (spec_state_for(within) == EnemyState::Roam) == !within,
{
}

/// The roster built from rolls has a cluster per roll cluster and an enemy per
/// roll; each enemy is fresh, of the kind its roll picks.
pub proof fn lemma_roster_follows_rolls(rolls: Seq<Seq<u32>>, c: int, i: int)
    requires
        0 <= c < rolls.len(),
        0 <= i < rolls[c].len(),
    ensures
        roster_from_rolls(rolls).len() == rolls.len(),
        roster_from_rolls(rolls)[c].len() == rolls[c].len(),
        roster_from_rolls(rolls)[c][i].enemy_type == spec_enemy_type_from_roll(rolls[c][i]),
        roster_from_rolls(rolls)[c][i].current_health == spec_enemy_type_from_roll(
            rolls[c][i],
        ).spec_max_health(),
        roster_from_rolls(rolls)[c][i].state == EnemyState::Roam,
{
}

/// The tuning of enemies: chase range 300; ten clusters of 3 to 9 enemies;
/// roaming legs of 10 to 99 units.
pub proof fn lemma_enemy_tuning()
    ensures
        CHASE_RANGE == 300,
        NUM_CLUSTERS == 10,
        MIN_CLUSTER_SIZE == 3 && MAX_CLUSTER_SIZE == 10,
        MIN_ROAM_DISTANCE == 10 && MAX_ROAM_DISTANCE == 100,
{
}

} // verus!
