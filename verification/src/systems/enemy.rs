//! Enemy spawning: which wave is running, which spawn group the next enemy
//! comes from, and how the spawner moves on from one wave to the next.

use vstd::prelude::*;

use crate::config::{spawn_models, spawn_total, UnitSpawnModel, Wave, WaveModel};
use crate::systems::game_state::GameState;
use crate::wave_manager::wave_models;

verus! {

/// The number of enemies produced by the first `k` groups.
pub open spec fn produced_before(spawns: Seq<UnitSpawnModel>, k: int) -> int {
    spawn_total(spawns.take(k))
}

/// Whether the `spawned`-th enemy (counting from zero) falls in group `i`.
pub open spec fn in_group(spawns: Seq<UnitSpawnModel>, spawned: int, i: int) -> bool {
    produced_before(spawns, i) <= spawned < produced_before(spawns, i) + spawns[i].count
}

/// The first group the `spawned`-th enemy falls in, if any.
pub open spec fn group_of(spawns: Seq<UnitSpawnModel>, spawned: int) -> Option<int> {
    if exists|i: int| 0 <= i < spawns.len() && in_group(spawns, spawned, i) {
        Some(
            choose|i: int|
                0 <= i < spawns.len() && in_group(spawns, spawned, i) && forall|j: int|
                    0 <= j < i ==> !in_group(spawns, spawned, j),
        )
    } else {
        None
    }
}

/// Whether every running total of the groups' counts fits an `i32`.
pub open spec fn totals_fit(spawns: Seq<UnitSpawnModel>) -> bool {
    forall|k: int| 0 <= k <= spawns.len() ==> i32::MIN <= #[trigger] produced_before(spawns, k) <= i32::MAX
}

/// The spawn group the next enemy of a wave comes from, after `spawned` of
/// its enemies: the first group whose share of the wave covers it.
pub fn select_spawn(wave: &Wave, spawned: i32) -> (r: Option<usize>)
    requires
        totals_fit(wave@.spawns),
    ensures
        match r {
            Some(i) => group_of(wave@.spawns, spawned as int) == Some(i as int),
            None => group_of(wave@.spawns, spawned as int) is None,
        },
{
    let ghost ss = wave@.spawns;
    let mut cumulative_count: i32 = 0;
    let mut i: usize = 0;
    assert(ss.take(0) =~= Seq::<UnitSpawnModel>::empty());
    while i < wave.spawns.len()
        invariant
            ss == wave@.spawns,
            ss == spawn_models(wave.spawns@),
            i <= ss.len(),
            totals_fit(ss),
            cumulative_count == produced_before(ss, i as int),
            forall|j: int| 0 <= j < i ==> !in_group(ss, spawned as int, j),
        decreases ss.len() - i,
    {
        assert(ss.take(i + 1).drop_last() =~= ss.take(i as int));
        assert(produced_before(ss, i + 1) <= i32::MAX);
        let spawn_end = cumulative_count + wave.spawns[i].count;
        if spawned >= cumulative_count && spawned < spawn_end {
            proof {
                let c = choose|k: int|
                    0 <= k < ss.len() && in_group(ss, spawned as int, k) && forall|j: int|
                        0 <= j < k ==> !in_group(ss, spawned as int, j);
                assert(in_group(ss, spawned as int, i as int));
                if c < i {
                    assert(!in_group(ss, spawned as int, c));
                } else if c > i {
                    assert(!in_group(ss, spawned as int, i as int));
                }
            }
            return Some(i);
        }
        cumulative_count = spawn_end;
        i = i + 1;
    }
    None
}

/// The position in the wave list of the wave the game is at (numbered from
/// one), when there is such a wave.
pub fn wave_index(wave: i32, wave_count: usize) -> (r: Option<usize>)
    requires
        wave > i32::MIN,
    ensures
        r == if 1 <= wave && wave - 1 < wave_count {
            Some((wave - 1) as usize)
        } else {
            None::<usize>
        },
{
    let w = wave - 1;
    if w < 0 {
        return None;
    }
    let idx = w as usize;
    if idx >= wave_count {
        None
    } else {
        Some(idx)
    }
}

/// How far the spawner is in the current wave.
#[derive(Clone, Copy, PartialEq, Eq, Structural, Debug)]
pub struct EnemySpawner {
    pub enemies_spawned: i32,
    pub enemies_this_wave: i32,
}

/// Whether every wave's running totals fit an `i32`.
pub open spec fn all_totals_fit(waves: Seq<WaveModel>) -> bool {
    forall|w: int| 0 <= w < waves.len() ==> totals_fit(#[trigger] waves[w].spawns)
}

/// Whether the running wave is finished: every enemy of it was spawned and
/// none is left on the field.
pub open spec fn wave_finished(wave_active: bool, spawner: EnemySpawner, enemies_left: bool) -> bool {
    wave_active && spawner.enemies_spawned >= spawner.enemies_this_wave && !enemies_left
}

/// The spawner and wave number after an enemy of a wave of `total_count`
/// enemies was spawned: the enemy is counted, and when it was the wave's
/// last the game moves to the next wave number. The count stays at the
/// wave's total until the wave is seen to be finished.
pub open spec fn after_spawn(spawner: EnemySpawner, wave: i32, total_count: int) -> (EnemySpawner, i32) {
    let spawned = spawner.enemies_spawned + 1;
    let counted = EnemySpawner { enemies_spawned: spawned as i32, ..spawner };
    if spawned >= total_count {
        (counted, (wave + 1) as i32)
    } else {
        (counted, wave)
    }
}

/// Counts a spawned enemy. The count is not reset at a wave's last enemy:
/// it stays at the wave's total, so that the completion check sees every
/// enemy spawned, and `start_wave_local` resets it as the next wave starts.
/// Returns the position of the wave the game moved on to, when the enemy
/// was the last of its wave and a next wave exists, so that the spawn timer
/// can take that wave's interval.
pub fn record_enemy_spawned(
    spawner: &mut EnemySpawner,
    state: &mut GameState,
    total_count: i32,
    waves: &Vec<Wave>,
) -> (next: Option<usize>)
    requires
        old(spawner).enemies_spawned < i32::MAX,
        old(state).wave < i32::MAX,
        old(state).wave >= 0,
    ensures
        ({
            let (sp, w) = after_spawn(*old(spawner), old(state).wave, total_count as int);
            &&& *final(spawner) == sp
            &&& *final(state) == (GameState { wave: w, ..*old(state) })
            &&& next == if old(spawner).enemies_spawned + 1 >= total_count && w - 1 < waves@.len() {
                Some((w - 1) as usize)
            } else {
                None::<usize>
            }
        }),
        old(spawner).enemies_spawned + 1 >= total_count && old(spawner).enemies_this_wave
            <= total_count ==> wave_finished(true, *final(spawner), false),
{
    spawner.enemies_spawned = spawner.enemies_spawned + 1;
    if spawner.enemies_spawned >= total_count {
        state.wave = state.wave + 1;
        let idx = (state.wave - 1) as usize;
        if idx < waves.len() {
            return Some(idx);
        }
    }
    None
}

/// The spawner as the next wave starts: the count starts over and, when
/// the game is at a wave that exists, the spawner takes on its number of
/// enemies.
pub open spec fn spawner_for_next_wave(spawner: EnemySpawner, wave: i32, waves: Seq<WaveModel>) -> EnemySpawner {
    if 1 <= wave && wave - 1 < waves.len() {
        EnemySpawner { enemies_spawned: 0, enemies_this_wave: spawn_total(waves[wave - 1].spawns) as i32 }
    } else {
        EnemySpawner { enemies_spawned: 0, ..spawner }
    }
}

/// Ends the running wave when it is finished: every enemy was spawned and
/// none is left. The wave stops; the spawner is left as it is. Returns
/// whether the wave ended, so that the caller restarts the preparation
/// countdown.
pub fn check_wave_completion(wave_active: &mut bool, spawner: &EnemySpawner, enemies_left: bool) -> (done: bool)
    ensures
        done == wave_finished(*old(wave_active), *spawner, enemies_left),
        *final(wave_active) == (*old(wave_active) && !done),
{
    if *wave_active && spawner.enemies_spawned >= spawner.enemies_this_wave && !enemies_left {
        *wave_active = false;
        true
    } else {
        false
    }
}

/// Starts the next wave: the wave becomes active, and the spawner's count
/// starts over with the number of enemies of the wave the game is at,
/// when that wave exists. This is where the count kept at the last wave's
/// total is reset.
pub fn start_wave_local(wave_active: &mut bool, spawner: &mut EnemySpawner, wave: i32, waves: &Vec<Wave>)
    requires
        all_totals_fit(wave_models(waves@)),
    ensures
        *final(wave_active),
        *final(spawner) == spawner_for_next_wave(*old(spawner), wave, wave_models(waves@)),
{
    *wave_active = true;
    spawner.enemies_spawned = 0;
    if wave >= 1 && ((wave - 1) as usize) < waves.len() {
        let i = (wave - 1) as usize;
        assert(wave_models(waves@)[i as int] == waves@[i as int]@);
        assert(totals_fit(waves@[i as int]@.spawns));
        proof {
            let ss = waves@[i as int]@.spawns;
            assert forall|k: int| 0 <= k <= waves@[i as int].spawns@.len() implies i32::MIN
                <= #[trigger] spawn_total(spawn_models(waves@[i as int].spawns@).take(k))
                <= i32::MAX by {
                assert(produced_before(ss, k) == spawn_total(ss.take(k)));
            }
        }
        spawner.enemies_this_wave = waves[i].total_units();
    }
}

/// A wave whose every enemy was spawned ends once none is left: starting a
/// wave of `total_count` enemies, after its last spawn and with the field
/// clear, the completion check ends it.
pub proof fn lemma_wave_ends_after_last_spawn(spawner: EnemySpawner, wave: i32, total_count: int)
    requires
        spawner.enemies_spawned == 0,
        spawner.enemies_this_wave == total_count,
        1 <= total_count <= i32::MAX,
        wave < i32::MAX,
    ensures
        wave_finished(true, after_spawns(spawner, wave, total_count, total_count as nat).0, false),
{
    lemma_waves_progress(spawner, wave, total_count, total_count as nat);
}

/// The whole wave is spawned once as many enemies came as its groups
/// count, when the counts are not negative.
pub proof fn lemma_totals_nonnegative(spawns: Seq<UnitSpawnModel>)
    requires
        forall|i: int| 0 <= i < spawns.len() ==> #[trigger] spawns[i].count >= 0,
    ensures
        spawn_total(spawns) >= 0,
    decreases spawns.len(),
{
    if spawns.len() > 0 {
        lemma_totals_nonnegative(spawns.drop_last());
        assert(spawns.last().count >= 0);
    }
}

/// Under a running total there is a group the enemy falls in.
proof fn lemma_group_exists(spawns: Seq<UnitSpawnModel>, spawned: int)
    requires
        forall|i: int| 0 <= i < spawns.len() ==> #[trigger] spawns[i].count >= 0,
        0 <= spawned < spawn_total(spawns),
    ensures
        exists|i: int| 0 <= i < spawns.len() && in_group(spawns, spawned, i),
    decreases spawns.len(),
{
    let n = spawns.len() as int;
    assert(spawns.take(n) =~= spawns);
    assert(spawns.drop_last() =~= spawns.take(n - 1));
    if spawned >= produced_before(spawns, n - 1) {
        assert(in_group(spawns, spawned, n - 1));
    } else {
        let shorter = spawns.drop_last();
        assert forall|i: int| 0 <= i < shorter.len() implies #[trigger] shorter[i].count >= 0 by {
            assert(shorter[i] == spawns[i]);
        }
        lemma_group_exists(shorter, spawned);
        let i = choose|i: int| 0 <= i < shorter.len() && in_group(shorter, spawned, i);
        assert(shorter.take(i) =~= spawns.take(i));
        assert(shorter[i] == spawns[i]);
        assert(in_group(spawns, spawned, i));
    }
}

/// With counts that are not negative, every enemy of a wave falls in a
/// group.
pub proof fn lemma_every_enemy_has_a_group(spawns: Seq<UnitSpawnModel>, spawned: int)
    requires
        forall|i: int| 0 <= i < spawns.len() ==> #[trigger] spawns[i].count >= 0,
        0 <= spawned < spawn_total(spawns),
    ensures
        group_of(spawns, spawned) is Some,
{
    lemma_group_exists(spawns, spawned);
}

/// The spawner and wave after `k` more enemies of the current wave.
pub open spec fn after_spawns(spawner: EnemySpawner, wave: i32, total_count: int, k: nat) -> (EnemySpawner, i32)
    decreases k,
{
    if k == 0 {
        (spawner, wave)
    } else {
        let (s, w) = after_spawns(spawner, wave, total_count, (k - 1) as nat);
        after_spawn(s, w, total_count)
    }
}

/// Waves progress one at a time: starting a wave of `total_count` enemies,
/// the game stays at that wave while fewer have come, counting them; as
/// the last one comes it moves to the next wave number, and with no enemy
/// left on the field the wave is finished.
pub proof fn lemma_waves_progress(spawner: EnemySpawner, wave: i32, total_count: int, k: nat)
    requires
        spawner.enemies_spawned == 0,
        spawner.enemies_this_wave == total_count,
        1 <= k <= total_count <= i32::MAX,
        wave < i32::MAX,
    ensures
        k < total_count ==> after_spawns(spawner, wave, total_count, k) == (
        EnemySpawner { enemies_spawned: k as i32, ..spawner },
        wave,
        ),
        k == total_count ==> after_spawns(spawner, wave, total_count, k) == (
        EnemySpawner { enemies_spawned: k as i32, ..spawner },
        (wave + 1) as i32,
        ) && wave_finished(true, after_spawns(spawner, wave, total_count, k).0, false),
    decreases k,
{
    if k > 1 {
        lemma_waves_progress(spawner, wave, total_count, (k - 1) as nat);
        let prev = EnemySpawner { enemies_spawned: (k - 1) as i32, ..spawner };
        assert(after_spawns(spawner, wave, total_count, (k - 1) as nat) == (prev, wave));
        assert(after_spawns(spawner, wave, total_count, k) == after_spawn(prev, wave, total_count));
    } else {
        reveal_with_fuel(after_spawns, 2);
        assert(after_spawns(spawner, wave, total_count, k) == after_spawn(spawner, wave, total_count));
    }
}

} // verus!
