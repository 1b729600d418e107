//! When a wave counts as finished, when the next-wave panel is shown and
//! which enemy rows it lists; the figures of the top bar.

use vstd::prelude::*;

use crate::config::{spawn_models, UnitSpawnModel, UnitType, UnitTypeModel, Wave};
use crate::systems::enemy::{wave_finished, EnemySpawner};
use crate::systems::game_state::GameState;
use crate::text::{decimal_text, format_i32};
use crate::wave_manager::{find_unit, unit_models, unit_position};

verus! {

/// Whether the running wave is finished: every enemy was spawned and none
/// is left on the field.
pub fn wave_completed(wave_active: bool, spawner: &EnemySpawner, enemies_left: bool) -> (r: bool)
    ensures
        r == wave_finished(wave_active, *spawner, enemies_left),
{
    wave_active && spawner.enemies_spawned >= spawner.enemies_this_wave && !enemies_left
}

/// Whether the next-wave panel is shown: during preparation, or while the
/// wave has not spawned anyone yet.
pub fn wave_panel_shown(wave_active: bool, spawner: &EnemySpawner) -> (r: bool)
    ensures
        r == !(wave_active && spawner.enemies_spawned > 0),
{
    !(wave_active && spawner.enemies_spawned > 0)
}

/// The enemy rows of the next-wave panel: for each spawn group whose unit
/// type is known, the position of that unit type and the group's count.
pub open spec fn panel_rows(spawns: Seq<UnitSpawnModel>, units: Seq<UnitTypeModel>) -> Seq<(int, i32)>
    decreases spawns.len(),
{
    if spawns.len() == 0 {
        Seq::empty()
    } else {
        let rest = panel_rows(spawns.drop_last(), units);
        match unit_position(units, spawns.last().unit_id) {
            Some(i) => rest.push((i, spawns.last().count)),
            None => rest,
        }
    }
}

/// The enemy rows the next-wave panel shows for `wave`, as positions in
/// `units` and counts.
pub fn wave_panel_rows(wave: &Wave, units: &Vec<UnitType>) -> (r: Vec<(usize, i32)>)
    ensures
        r@.map_values(|e: (usize, i32)| (e.0 as int, e.1)) == panel_rows(
            spawn_models(wave.spawns@),
            unit_models(units@),
        ),
{
    let ghost ss = spawn_models(wave.spawns@);
    let ghost us = unit_models(units@);
    let mut r: Vec<(usize, i32)> = Vec::new();
    let mut i: usize = 0;
    assert(ss.take(0) =~= Seq::<UnitSpawnModel>::empty());
    assert(r@.map_values(|e: (usize, i32)| (e.0 as int, e.1)) =~= Seq::<(int, i32)>::empty());
    while i < wave.spawns.len()
        invariant
            ss == spawn_models(wave.spawns@),
            us == unit_models(units@),
            i <= ss.len(),
            r@.map_values(|e: (usize, i32)| (e.0 as int, e.1)) == panel_rows(ss.take(i as int), us),
        decreases ss.len() - i,
    {
        let spawn = &wave.spawns[i];
        proof {
            assert(ss.take(i + 1).drop_last() =~= ss.take(i as int));
            assert(ss.take(i + 1).last() == spawn@);
        }
        match find_unit(units, &spawn.unit_id) {
            Some(k) => {
                let ghost before = r@;
                r.push((k, spawn.count));
                assert(r@.map_values(|e: (usize, i32)| (e.0 as int, e.1)) =~= before.map_values(
                    |e: (usize, i32)| (e.0 as int, e.1),
                ).push((k as int, spawn.count)));
            },
            None => {},
        }
        i = i + 1;
    }
    assert(ss.take(i as int) =~= ss);
    r
}

/// The figures of the top bar: lives, gold, wood and meat, in decimal.
pub fn top_bar_texts(state: &GameState) -> (r: (String, String, String, String))
    ensures
        r.0@ == decimal_text(state.lives as int),
        r.1@ == decimal_text(state.gold as int),
        r.2@ == decimal_text(state.wood as int),
        r.3@ == decimal_text(state.meat as int),
{
    (format_i32(state.lives), format_i32(state.gold), format_i32(state.wood), format_i32(state.meat))
}

} // verus!
