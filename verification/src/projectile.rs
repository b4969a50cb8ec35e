//! How projectiles wear enemies down.

use vstd::prelude::*;

verus! {

/// Health that one projectile takes from the enemy it strikes.
pub const PROJECTILE_DAMAGE: i32 = 25;

/// `e` is the first enemy that the projectile overlaps, in the order of
/// `row`, which says for each enemy whether the projectile overlaps it.
pub open spec fn is_first_hit(row: Seq<bool>, e: int) -> bool {
    &&& 0 <= e < row.len()
    &&& row[e]
    &&& forall|k: int| 0 <= k < e ==> !#[trigger] row[k]
}

/// The enemy that a projectile strikes: the first one it overlaps, if any.
pub open spec fn target(row: Seq<bool>) -> Option<int> {
    if exists|e: int| is_first_hit(row, e) {
        Some(choose|e: int| is_first_hit(row, e))
    } else {
        None
    }
}

/// How many of the projectiles, in `overlaps`, strike enemy `e`.
pub open spec fn hits_on(overlaps: Seq<Seq<bool>>, e: int) -> nat
    decreases overlaps.len(),
{
    if overlaps.len() == 0 {
        0
    } else {
        hits_on(overlaps.drop_last(), e) + if target(overlaps.last()) == Some(e) {
            1nat
        } else {
            0nat
        }
    }
}

/// The projectiles that strike some enemy, in order: each is used up.
pub open spec fn spent_projectiles(overlaps: Seq<Seq<bool>>) -> Seq<int>
    decreases overlaps.len(),
{
    if overlaps.len() == 0 {
        Seq::empty()
    } else {
        let prev = spent_projectiles(overlaps.drop_last());
        if target(overlaps.last()) is Some {
            prev.push(overlaps.len() - 1)
        } else {
            prev
        }
    }
}

/// The enemies to remove, in the order in which the hits that bring them to
/// zero health or below land. An enemy struck again after that is listed
/// again, as every such hit asks for its removal.
pub open spec fn fallen_enemies(health: Seq<int>, overlaps: Seq<Seq<bool>>) -> Seq<int>
    decreases overlaps.len(),
{
    if overlaps.len() == 0 {
        Seq::empty()
    } else {
        let prev = fallen_enemies(health, overlaps.drop_last());
        match target(overlaps.last()) {
            Some(e) => if health[e] - PROJECTILE_DAMAGE * (hits_on(overlaps.drop_last(), e) + 1)
                <= 0 {
                prev.push(e)
            } else {
                prev
            },
            None => prev,
        }
    }
}

/// What one pass of projectile collisions asks the game shell to remove.
pub struct HitReport {
    /// Indices of the projectiles that struck an enemy, ascending.
    pub despawned_projectiles: Vec<usize>,
    /// Indices of the enemies brought to zero health or below, once per such hit.
    pub despawned_enemies: Vec<usize>,
}

/// The view of an overlap table: one row per projectile, one column per enemy.
pub open spec fn table(overlaps: &Vec<Vec<bool>>) -> Seq<Seq<bool>> {
    overlaps@.map_values(|r: Vec<bool>| r@)
}

proof fn lemma_first_hit_unique(row: Seq<bool>, a: int, b: int)
    requires
        is_first_hit(row, a),
        is_first_hit(row, b),
    ensures
        a == b,
{
    if a < b {
        assert(!row[a]);
    } else if b < a {
        assert(!row[b]);
    }
}

proof fn lemma_hits_on_prefix(overlaps: Seq<Seq<bool>>, i: int, e: int)
    requires
        0 <= i <= overlaps.len(),
    ensures
        hits_on(overlaps.take(i), e) <= hits_on(overlaps, e),
    decreases overlaps.len(),
{
    if i < overlaps.len() {
        assert(overlaps.drop_last().take(i) =~= overlaps.take(i));
        lemma_hits_on_prefix(overlaps.drop_last(), i, e);
    } else {
        assert(overlaps.take(i) =~= overlaps);
    }
}

/// Finds the enemy that a projectile strikes: the first one it overlaps.
fn find_target(row: &Vec<bool>) -> (t: Option<usize>)
    ensures
        t matches Some(e) ==> target(row@) == Some(e as int),
        t is None ==> target(row@) is None,
{
    let mut j: usize = 0;
    while j < row.len()
        invariant
            j <= row@.len(),
            forall|k: int| 0 <= k < j ==> !#[trigger] row@[k],
        decreases row@.len() - j,
    {
        if row[j] {
            proof {
                assert(is_first_hit(row@, j as int));
                let c = choose|e: int| is_first_hit(row@, e);
                lemma_first_hit_unique(row@, c, j as int);
            }
            return Some(j);
        }
        j = j + 1;
    }
    assert(!exists|e: int| is_first_hit(row@, e));
    None
}

/// Resolves one frame of projectile collisions. `overlaps[p][e]` says whether
/// projectile `p` overlaps enemy `e`. Projectiles are taken in order; each
/// strikes the first enemy it overlaps, if any, is used up, and takes
/// `PROJECTILE_DAMAGE` from that enemy's health; an enemy whose health drops
/// to zero or below is to be removed. Removals happen after the pass, so an
/// enemy brought down can still be struck by later projectiles of the same
/// pass.
pub fn detect_projectile_collisions(healths: &mut Vec<i32>, overlaps: &Vec<Vec<bool>>) -> (report: HitReport)
    requires
        forall|p: int| 0 <= p < overlaps@.len() ==> #[trigger] overlaps@[p]@.len() == old(healths)@.len(),
        forall|e: int|
            0 <= e < old(healths)@.len() ==> #[trigger] old(healths)@[e] - PROJECTILE_DAMAGE
                * hits_on(table(overlaps), e) >= i32::MIN,
    ensures
        final(healths)@.len() == old(healths)@.len(),
        forall|e: int|
            0 <= e < old(healths)@.len() ==> #[trigger] final(healths)@[e] == old(healths)@[e]
                - PROJECTILE_DAMAGE * hits_on(table(overlaps), e),
        report.despawned_projectiles@.map_values(|p: usize| p as int) == spent_projectiles(table(overlaps)),
        report.despawned_enemies@.map_values(|e: usize| e as int) == fallen_enemies(
            old(healths)@.map_values(|h: i32| h as int),
            table(overlaps),
        ),
{
    let ghost h0 = old(healths)@.map_values(|h: i32| h as int);
    let ghost t = table(overlaps);
    let mut spent: Vec<usize> = Vec::new();
    let mut fallen: Vec<usize> = Vec::new();
    let mut p: usize = 0;
    while p < overlaps.len()
        invariant
            p <= overlaps@.len(),
            t == table(overlaps),
            t.len() == overlaps@.len(),
            h0 == old(healths)@.map_values(|h: i32| h as int),
            healths@.len() == old(healths)@.len(),
            forall|q: int| 0 <= q < overlaps@.len() ==> #[trigger] overlaps@[q]@.len() == old(healths)@.len(),
            forall|e: int|
                0 <= e < old(healths)@.len() ==> #[trigger] old(healths)@[e] - PROJECTILE_DAMAGE
                    * hits_on(t, e) >= i32::MIN,
            forall|e: int|
                0 <= e < healths@.len() ==> #[trigger] healths@[e] == old(healths)@[e]
                    - PROJECTILE_DAMAGE * hits_on(t.take(p as int), e),
            spent@.map_values(|q: usize| q as int) == spent_projectiles(t.take(p as int)),
            fallen@.map_values(|e: usize| e as int) == fallen_enemies(h0, t.take(p as int)),
        decreases overlaps@.len() - p,
    {
        let ghost prefix = t.take(p as int);
        let ghost next = t.take(p + 1);
        assert(next.drop_last() =~= prefix);
        assert(next.last() == overlaps@[p as int]@);
        let hit = find_target(&overlaps[p]);
        match hit {
            Some(e) => {
                proof {
                    lemma_hits_on_prefix(t, p + 1, e as int);
                    assert(target(next.last()) == Some(e as int));
                    assert(hits_on(next, e as int) == hits_on(prefix, e as int) + 1);
                }
                let h: i32 = healths[e] - PROJECTILE_DAMAGE;
                healths.set(e, h);
                spent.push(p);
                if h <= 0 {
                    fallen.push(e);
                }
                proof {
                    assert(spent@.map_values(|q: usize| q as int) =~= spent_projectiles(prefix).push(p as int));
                    if h <= 0 {
                        assert(fallen@.map_values(|q: usize| q as int) =~= fallen_enemies(h0, prefix).push(e as int));
                    } else {
                        assert(fallen@.map_values(|q: usize| q as int) =~= fallen_enemies(h0, prefix));
                    }
                    assert forall|k: int| 0 <= k < healths@.len() implies #[trigger] healths@[k] == old(healths)@[k]
                        - PROJECTILE_DAMAGE * hits_on(next, k) by {
                        if k != e {
                            assert(hits_on(next, k) == hits_on(prefix, k));
                        }
                    }
                }
            },
            None => {
                proof {
                    assert forall|k: int| 0 <= k < healths@.len() implies #[trigger] healths@[k] == old(healths)@[k]
                        - PROJECTILE_DAMAGE * hits_on(next, k) by {
                        assert(hits_on(next, k) == hits_on(prefix, k));
                    }
                }
            },
        }
        p = p + 1;
    }
    assert(t.take(overlaps@.len() as int) =~= t);
    HitReport { despawned_projectiles: spent, despawned_enemies: fallen }
}

/// Strikes landed on the enemies `0..n` together.
pub open spec fn total_hits(overlaps: Seq<Seq<bool>>, n: nat) -> nat
    decreases n,
{
    if n == 0 {
        0
    } else {
        total_hits(overlaps, (n - 1) as nat) + hits_on(overlaps, n - 1)
    }
}

proof fn lemma_target_in_row(row: Seq<bool>)
    ensures
        target(row) matches Some(e) ==> 0 <= e < row.len(),
{
}

proof fn lemma_total_hits_step(overlaps: Seq<Seq<bool>>, n: nat)
    requires
        overlaps.len() > 0,
    ensures
        total_hits(overlaps, n) == total_hits(overlaps.drop_last(), n) + if target(
            overlaps.last(),
        ) matches Some(e) && e < n {
            1nat
        } else {
            0nat
        },
    decreases n,
{
    if n > 0 {
        lemma_total_hits_step(overlaps, (n - 1) as nat);
    }
}

proof fn lemma_total_hits_none(overlaps: Seq<Seq<bool>>, n: nat)
    requires
        overlaps.len() == 0,
    ensures
        total_hits(overlaps, n) == 0,
    decreases n,
{
    if n > 0 {
        lemma_total_hits_none(overlaps, (n - 1) as nat);
    }
}

/// Every projectile that is used up strikes exactly one enemy, and no other
/// projectile strikes any: over all enemies, the strikes landed number the
/// projectiles spent. So the health taken from all enemies together is
/// `PROJECTILE_DAMAGE` times the number of projectiles spent.
pub proof fn lemma_strikes_match_spent_projectiles(overlaps: Seq<Seq<bool>>, n: nat)
    requires
        forall|p: int| 0 <= p < overlaps.len() ==> #[trigger] overlaps[p].len() == n,
    ensures
        total_hits(overlaps, n) == spent_projectiles(overlaps).len(),
    decreases overlaps.len(),
{
    if overlaps.len() > 0 {
        let prev = overlaps.drop_last();
        assert forall|p: int| 0 <= p < prev.len() implies #[trigger] prev[p].len() == n by {
            assert(prev[p] == overlaps[p]);
        }
        lemma_strikes_match_spent_projectiles(prev, n);
        lemma_total_hits_step(overlaps, n);
        lemma_target_in_row(overlaps.last());
        assert(overlaps.last() == overlaps[overlaps.len() - 1]);
    } else {
        lemma_total_hits_none(overlaps, n);
    }
}


/// Projectiles only ever take health away: after a pass no enemy has more
/// health than before, and one that no projectile struck has exactly as much.
pub proof fn lemma_health_never_rises(health: int, overlaps: Seq<Seq<bool>>, e: int)
    ensures
        health - PROJECTILE_DAMAGE * hits_on(overlaps, e) <= health,
        hits_on(overlaps, e) == 0 ==> health - PROJECTILE_DAMAGE * hits_on(overlaps, e) == health,
{
}

/// A projectile strikes the first enemy it overlaps: the struck enemy is
/// overlapped and no enemy before it is; a projectile overlapping no enemy
/// strikes none.
pub proof fn lemma_target_is_first_overlap(row: Seq<bool>)
    ensures
        target(row) matches Some(e) ==> 0 <= e < row.len() && row[e] && forall|k: int|
            0 <= k < e ==> !#[trigger] row[k],
        target(row) is None ==> forall|k: int| 0 <= k < row.len() ==> !#[trigger] row[k],
        (exists|k: int| 0 <= k < row.len() && row[k]) ==> target(row) is Some,
{
    if exists|k: int| 0 <= k < row.len() && row[k] {
        lemma_first_overlap_exists(row, choose|k: int| 0 <= k < row.len() && row[k]);
    }
}

proof fn lemma_first_overlap_exists(row: Seq<bool>, k: int)
    requires
        0 <= k < row.len(),
        row[k],
    ensures
        exists|e: int| is_first_hit(row, e),
    decreases k,
{
    if exists|j: int| 0 <= j < k && row[j] {
        let j = choose|j: int| 0 <= j < k && row[j];
        lemma_first_overlap_exists(row, j);
    } else {
        assert(is_first_hit(row, k));
    }
}

/// The spent projectiles are exactly those that strike an enemy, each listed
/// once, in ascending order.
pub proof fn lemma_spent_projectiles(overlaps: Seq<Seq<bool>>)
    ensures
        forall|k: int|
            0 <= k < spent_projectiles(overlaps).len() ==> 0 <= #[trigger] spent_projectiles(
                overlaps,
            )[k] < overlaps.len() && target(overlaps[spent_projectiles(overlaps)[k]]) is Some,
        forall|j: int, k: int|
            0 <= j < k < spent_projectiles(overlaps).len() ==> #[trigger] spent_projectiles(
                overlaps,
            )[j] < #[trigger] spent_projectiles(overlaps)[k],
        forall|p: int|
            0 <= p < overlaps.len() && target(#[trigger] overlaps[p]) is Some
                ==> spent_projectiles(overlaps).contains(p),
    decreases overlaps.len(),
{
    if overlaps.len() > 0 {
        let prev = overlaps.drop_last();
        lemma_spent_projectiles(prev);
        let sp = spent_projectiles(overlaps);
        let spp = spent_projectiles(prev);
        assert forall|k: int| 0 <= k < spp.len() implies spp[k] < overlaps.len() - 1 && target(
            overlaps[spp[k]],
        ) is Some by {
            assert(prev[spp[k]] == overlaps[spp[k]]);
        }
        assert forall|p: int| 0 <= p < overlaps.len() && target(#[trigger] overlaps[p]) is Some
            implies sp.contains(p) by {
            if p < overlaps.len() - 1 {
                assert(prev[p] == overlaps[p]);
                let k = choose|k: int| 0 <= k < spp.len() && spp[k] == p;
                assert(sp[k] == p);
            } else {
                assert(sp[sp.len() - 1] == p);
            }
        }
    }
}

/// A projectile pass that lands no strike on an enemy leaves it untouched,
/// and each strike on it takes exactly `PROJECTILE_DAMAGE`: one more
/// projectile aimed at it adds one strike, one aimed elsewhere adds none.
pub proof fn lemma_strikes_count(overlaps: Seq<Seq<bool>>, row: Seq<bool>, e: int)
    ensures
        hits_on(Seq::empty(), e) == 0,
        target(row) == Some(e) ==> hits_on(overlaps.push(row), e) == hits_on(overlaps, e) + 1,
        target(row) != Some(e) ==> hits_on(overlaps.push(row), e) == hits_on(overlaps, e),
        PROJECTILE_DAMAGE == 25,
{
    assert(overlaps.push(row).drop_last() =~= overlaps);
}

/// An enemy is listed for removal only by a strike that leaves it at zero
/// health or below: each listed enemy ends the pass at zero or below.
pub proof fn lemma_fallen_are_down(health: Seq<int>, overlaps: Seq<Seq<bool>>)
    ensures
        forall|k: int|
            0 <= k < fallen_enemies(health, overlaps).len() ==> {
                let e = #[trigger] fallen_enemies(health, overlaps)[k];
                health[e] - PROJECTILE_DAMAGE * hits_on(overlaps, e) <= 0
            },
    decreases overlaps.len(),
{
    if overlaps.len() > 0 {
        let prev = overlaps.drop_last();
        lemma_fallen_are_down(health, prev);
        let f = fallen_enemies(health, overlaps);
        let fp = fallen_enemies(health, prev);
        assert forall|k: int| 0 <= k < f.len() implies {
            let e = #[trigger] f[k];
            health[e] - PROJECTILE_DAMAGE * hits_on(overlaps, e) <= 0
        } by {
            let e = f[k];
            assert(hits_on(overlaps, e) >= hits_on(prev, e));
            if k < fp.len() {
                assert(f[k] == fp[k]);
            }
        }
    }
}

/// An enemy struck down to zero health or below in a pass is listed for
/// removal at least once.
pub proof fn lemma_down_are_fallen(health: Seq<int>, overlaps: Seq<Seq<bool>>, e: int)
    requires
        health[e] > 0,
        health[e] - PROJECTILE_DAMAGE * hits_on(overlaps, e) <= 0,
    ensures
        fallen_enemies(health, overlaps).contains(e),
    decreases overlaps.len(),
{
    if overlaps.len() > 0 {
        let prev = overlaps.drop_last();
        let f = fallen_enemies(health, overlaps);
        if health[e] - PROJECTILE_DAMAGE * hits_on(prev, e) <= 0 {
            lemma_down_are_fallen(health, prev, e);
            let k = choose|k: int| 0 <= k < fallen_enemies(health, prev).len() && fallen_enemies(health, prev)[k] == e;
            assert(f[k] == e);
        } else {
            assert(target(overlaps.last()) == Some(e));
            assert(f[f.len() - 1] == e);
        }
    }
}

} // verus!
